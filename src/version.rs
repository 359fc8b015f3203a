//! Runtime kinds, version specifications and the syntax each runtime accepts.
use vstd::prelude::*;

use crate::error::{VersionHint, VersionManagerError};

verus! {

/// The runtimes whose versions a project can pin.
#[derive(Debug, Clone, Copy, PartialEq, Eq, Hash, Structural)]
pub enum VersionedCommand {
    Node,
    Python,
}

/// The configuration name of each runtime.
pub open spec fn runtime_name(kind: VersionedCommand) -> Seq<char> {
    match kind {
        VersionedCommand::Node => "node"@,
        VersionedCommand::Python => "python"@,
    }
}

impl VersionedCommand {
    /// The name this runtime has in a configuration.
    pub fn name(&self) -> (r: &'static str)
        ensures
            r@ == runtime_name(*self),
    {
        match self {
            VersionedCommand::Node => "node",
            VersionedCommand::Python => "python",
        }
    }

    /// The runtime called `name` in a configuration, if any.
    pub fn from_name(name: &str) -> (r: Option<VersionedCommand>)
        ensures
            match r {
                Some(k) => runtime_name(k) == name@,
                None => name@ != runtime_name(VersionedCommand::Node) && name@ != runtime_name(
                    VersionedCommand::Python,
                ),
            },
    {
        if crate::text::str_eq(name, "node") {
            Some(VersionedCommand::Node)
        } else if crate::text::str_eq(name, "python") {
            Some(VersionedCommand::Python)
        } else {
            None
        }
    }
}

/// A pinned version, with the platform either taken from the host or given.
#[derive(Debug, Clone, PartialEq, Eq)]
pub enum VersionInfo {
    Simple(String),
    Complex { version: String, platform: String },
}

impl VersionInfo {
    /// An equal copy of this pin.
    pub fn duplicate(&self) -> (r: VersionInfo)
        ensures
            r == *self,
    {
        match self {
            VersionInfo::Simple(version) => VersionInfo::Simple(version.clone()),
            VersionInfo::Complex { version, platform } => VersionInfo::Complex {
                version: version.clone(),
                platform: platform.clone(),
            },
        }
    }

    /// A readable form: `Version: <v>`, with `, Platform: <p>` for a pin
    /// that names its platform.
    pub fn describe(&self) -> (r: String)
        ensures
            r@ == match self {
                VersionInfo::Simple(v) => "Version: "@ + v@,
                VersionInfo::Complex { version, platform } => "Version: "@ + version@
                    + ", Platform: "@ + platform@,
            },
    {
        match self {
            VersionInfo::Simple(v) => crate::text::concat2("Version: ", v.as_str()),
            VersionInfo::Complex { version, platform } => {
                let mut r = crate::text::concat3("Version: ", version.as_str(), ", Platform: ");
                r.append(platform.as_str());
                r
            },
        }
    }

    pub open spec fn version_view(&self) -> Seq<char> {
        match self {
            VersionInfo::Simple(version) => version@,
            VersionInfo::Complex { version, .. } => version@,
        }
    }

    /// The version string, whichever form the pin takes.
    pub fn get_version(&self) -> (r: &str)
        ensures
            r@ == self.version_view(),
    {
        match self {
            VersionInfo::Simple(version) => version.as_str(),
            VersionInfo::Complex { version, .. } => version.as_str(),
        }
    }
}

/// What `char::is_numeric` says of a character.
pub uninterp spec fn numeric_char(c: char) -> bool;

/// Relies on `char::is_numeric`: true for characters of the Unicode number
/// categories (Nd, Nl, No); of the ASCII characters these hold the digits only.
#[verifier::external_body]
fn is_numeric(c: char) -> (r: bool)
    ensures
        r == numeric_char(c),
        ('0' <= c && c <= '9') ==> r,
        ((c as u32) < 128 && !('0' <= c && c <= '9')) ==> !r,
{
    c.is_numeric()
}

/// How many times `c` occurs in `s`.
pub open spec fn count_char(s: Seq<char>, c: char) -> nat
    decreases s.len(),
{
    if s.len() == 0 {
        0
    } else {
        count_char(s.drop_last(), c) + if s.last() == c {
            1nat
        } else {
            0nat
        }
    }
}

/// The number of dot-separated components of `s`.
pub open spec fn component_count(s: Seq<char>) -> nat {
    count_char(s, '.') + 1
}

/// Every component of `s` consists of numeric characters only.
pub open spec fn components_numeric(s: Seq<char>) -> bool {
    forall|i: int| 0 <= i < s.len() && s[i] != '.' ==> numeric_char(#[trigger] s[i])
}

/// Some component of `s` is empty: `s` is empty, starts or ends with a dot,
/// or holds two dots in a row.
pub open spec fn has_empty_component(s: Seq<char>) -> bool {
    s.len() == 0 || s.last() == '.' || exists|k: int|
        0 <= k < s.len() && #[trigger] s[k] == '.' && (k == 0 || s[k - 1] == '.')
}

/// Every character of `s` other than a dot is an ASCII digit.
pub open spec fn digits_only(s: Seq<char>) -> bool {
    forall|i: int| 0 <= i < s.len() && s[i] != '.' ==> '0' <= #[trigger] s[i] && s[i] <= '9'
}

/// Some character of `s` other than a dot is ASCII but not a digit.
pub open spec fn has_ascii_non_digit(s: Seq<char>) -> bool {
    exists|i: int|
        0 <= i < s.len() && #[trigger] s[i] != '.' && (s[i] as u32) < 128 && !('0' <= s[i]
            && s[i] <= '9')
}

/// The hint for a version with `n` components.
pub open spec fn hint_for_count(n: nat) -> VersionHint {
    if n == 1 {
        VersionHint::MissingMinorAndPatch
    } else if n == 2 {
        VersionHint::MissingPatch
    } else {
        VersionHint::UseMajorMinorPatch
    }
}

/// `v` starts with the letter `v`.
pub open spec fn has_v_prefix(v: Seq<char>) -> bool {
    v.len() > 0 && v[0] == 'v'
}

/// The components part of a Node version: the text after a leading `v`.
pub open spec fn node_components(v: Seq<char>) -> Seq<char> {
    if has_v_prefix(v) {
        v.subrange(1, v.len() as int)
    } else {
        v
    }
}

/// Why a Node version is rejected, or `None` when it has the form `vX.Y.Z`:
/// first the number of components (after an optional `v`), then the `v`;
/// three components that are not all non-empty numbers get the hint for
/// three components.
pub open spec fn node_version_problem(v: Seq<char>) -> Option<VersionHint> {
    let rest = node_components(v);
    if component_count(rest) != 3 {
        Some(hint_for_count(component_count(rest)))
    } else if !has_v_prefix(v) {
        Some(VersionHint::MissingPrefix)
    } else if !components_numeric(rest) || has_empty_component(rest) {
        Some(hint_for_count(3))
    } else {
        None
    }
}

/// Why a Python version is rejected, or `None` when it has the form `X.Y.Z`.
pub open spec fn python_version_problem(v: Seq<char>) -> Option<VersionHint> {
    if !components_numeric(v) {
        Some(VersionHint::NonNumeric)
    } else if component_count(v) != 3 {
        Some(hint_for_count(component_count(v)))
    } else if has_empty_component(v) {
        Some(VersionHint::NonNumeric)
    } else {
        None
    }
}

/// `e` is the rejection of `version` for `runtime` with `hint`.
pub open spec fn is_invalid_version(
    e: VersionManagerError,
    runtime: VersionedCommand,
    version: Seq<char>,
    hint: VersionHint,
) -> bool {
    match e {
        VersionManagerError::InvalidVersion { runtime: r, version: v, hint: h } => r == runtime
            && v@ == version && h == hint,
        _ => false,
    }
}

/// The result of validating `version` against the problem `problem` found in it.
pub open spec fn validation_result(
    r: Result<(), VersionManagerError>,
    runtime: VersionedCommand,
    version: Seq<char>,
    problem: Option<VersionHint>,
) -> bool {
    match r {
        Ok(_) => problem is None,
        Err(e) => problem is Some && is_invalid_version(e, runtime, version, problem->0),
    }
}

/// Counts the dots of `s[from..]`, checks that all other characters are
/// numeric, and looks for an empty component.
fn scan_components(s: &str, from: usize) -> (r: (usize, bool, bool))
    requires
        from <= s@.len(),
    ensures
        r.0 + 1 == component_count(s@.subrange(from as int, s@.len() as int)),
        r.1 == components_numeric(s@.subrange(from as int, s@.len() as int)),
        r.2 == has_empty_component(s@.subrange(from as int, s@.len() as int)),
        digits_only(s@.subrange(from as int, s@.len() as int)) ==> r.1,
        r.1 ==> !has_ascii_non_digit(s@.subrange(from as int, s@.len() as int)),
{
    let n = s.unicode_len();
    let ghost t = s@.subrange(from as int, n as int);
    let mut dots: usize = 0;
    let mut numeric = true;
    let mut empty = false;
    let mut prev_dot = true;
    let mut i: usize = from;
    while i < n
        invariant
            n == s@.len(),
            t == s@.subrange(from as int, n as int),
            from <= i <= n,
            dots == count_char(t.subrange(0, i - from), '.'),
            dots <= i - from,
            numeric == (forall|k: int|
                0 <= k < i - from && t[k] != '.' ==> numeric_char(#[trigger] t[k])),
            forall|k: int|
                0 <= k < i - from && t[k] != '.' ==> (('0' <= #[trigger] t[k] && t[k] <= '9')
                    ==> numeric_char(t[k])) && (((t[k] as u32) < 128 && !('0' <= t[k] && t[k]
                    <= '9')) ==> !numeric_char(t[k])),
            prev_dot == (i == from || t[i - from - 1] == '.'),
            empty == (exists|k: int|
                0 <= k < i - from && #[trigger] t[k] == '.' && (k == 0 || t[k - 1] == '.')),
        decreases n - i,
    {
        let c = s.get_char(i);
        let ghost p = i - from;
        let ghost before = t.subrange(0, p);
        let ghost after = t.subrange(0, p + 1);
        assert(after.drop_last() =~= before);
        assert(t[p] == c);
        if c == '.' {
            dots = dots + 1;
            if prev_dot {
                empty = true;
            }
            prev_dot = true;
        } else {
            let num = is_numeric(c);
            numeric = numeric && num;
            prev_dot = false;
        }
        i = i + 1;
    }
    assert(t.subrange(0, n - from) =~= t);
    let empty_part = empty || prev_dot;
    proof {
        if t.len() > 0 {
            assert(t.last() == t[t.len() - 1]);
        }
        if digits_only(t) {
            assert forall|k: int| 0 <= k < t.len() && t[k] != '.' implies numeric_char(
                #[trigger] t[k],
            ) by {
                assert('0' <= t[k] && t[k] <= '9');
            }
        }
        if numeric && has_ascii_non_digit(t) {
            let k = choose|k: int|
                0 <= k < t.len() && #[trigger] t[k] != '.' && (t[k] as u32) < 128 && !('0'
                    <= t[k] && t[k] <= '9');
            assert(numeric_char(t[k]));
        }
    }
    (dots, numeric, empty_part)
}

/// The hint for a version whose components are separated by `dots` dots.
fn hint_for(dots: usize) -> (h: VersionHint)
    ensures
        h == hint_for_count(dots as nat + 1),
{
    if dots == 0 {
        VersionHint::MissingMinorAndPatch
    } else if dots == 1 {
        VersionHint::MissingPatch
    } else {
        VersionHint::UseMajorMinorPatch
    }
}

/// Checks that `version` reads `vMAJOR.MINOR.PATCH`.
pub fn validate_node_version(version: &str) -> (r: Result<(), VersionManagerError>)
    ensures
        validation_result(r, VersionedCommand::Node, version@, node_version_problem(version@)),
        has_v_prefix(version@) && component_count(node_components(version@)) == 3
            && !has_empty_component(node_components(version@)) && digits_only(
            node_components(version@),
        ) ==> r is Ok,
        r is Ok ==> has_v_prefix(version@) && !has_ascii_non_digit(node_components(version@)),
        digits_only(node_components(version@)) ==> components_numeric(node_components(version@)),
{
    let n = version.unicode_len();
    let prefixed = n > 0 && version.get_char(0) == 'v';
    let from: usize = if prefixed {
        1
    } else {
        0
    };
    let (dots, numeric, empty) = scan_components(version, from);
    proof {
        if !prefixed {
            assert(version@.subrange(0, version@.len() as int) =~= version@);
        }
    }
    let hint = if dots != 2 {
        hint_for(dots)
    } else if !prefixed {
        VersionHint::MissingPrefix
    } else if !numeric || empty {
        hint_for(2)
    } else {
        return Ok(());
    };
    Err(
        VersionManagerError::InvalidVersion {
            runtime: VersionedCommand::Node,
            version: version.to_owned(),
            hint,
        },
    )
}

/// Checks that `version` reads `MAJOR.MINOR.PATCH`.
pub fn validate_python_version(version: &str) -> (r: Result<(), VersionManagerError>)
    ensures
        validation_result(r, VersionedCommand::Python, version@, python_version_problem(version@)),
        component_count(version@) == 3 && !has_empty_component(version@) && digits_only(version@)
            ==> r is Ok,
        r is Ok ==> !has_ascii_non_digit(version@),
        digits_only(version@) ==> components_numeric(version@),
{
    let (dots, numeric, empty) = scan_components(version, 0);
    assert(version@.subrange(0, version@.len() as int) =~= version@);
    let hint = if !numeric {
        VersionHint::NonNumeric
    } else if dots != 2 {
        hint_for(dots)
    } else if empty {
        VersionHint::NonNumeric
    } else {
        return Ok(());
    };
    Err(
        VersionManagerError::InvalidVersion {
            runtime: VersionedCommand::Python,
            version: version.to_owned(),
            hint,
        },
    )
}

} // verus!

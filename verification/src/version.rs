use vstd::prelude::*;

verus! {

/// The version line of the main menu: the version, then the compatibility mode, the IL
/// mode and the profile where they apply.
pub open spec fn spec_version_string(
    version: Seq<char>,
    compatibility_mode: bool,
    il_mode: bool,
    profile_name: Option<Seq<char>>,
) -> Seq<char> {
    let s = version;
    let s = if compatibility_mode {
        s + " (1.01 compatibility mode)"@
    } else {
        s
    };
    let s = if il_mode {
        s + " - IL MODE ENABLED"@
    } else {
        s
    };
    match profile_name {
        Some(p) => s + " - profile: "@ + p,
        None => s,
    }
}

/// The version line of the main menu; see `spec_version_string`.
pub fn version_string(
    version: &str,
    compatibility_mode: bool,
    il_mode: bool,
    profile_name: Option<&str>,
) -> (r: String)
    ensures
        r@ == spec_version_string(
            version@,
            compatibility_mode,
            il_mode,
            match profile_name {
                Some(p) => Some(p@),
                None => None,
            },
        ),
{
    let mut s = String::from_str(version);
    if compatibility_mode {
        s.append(" (1.01 compatibility mode)");
    }
    if il_mode {
        s.append(" - IL MODE ENABLED");
    }
    match profile_name {
        Some(p) => {
            s.append(" - profile: ");
            s.append(p);
        },
        None => {},
    }
    s
}

} // verus!

use vstd::prelude::*;

use crate::file::{spec_lowercase, to_lowercase};

verus! {

/// Whether a profile name keeps the character: an ASCII letter or digit, or '-'.
pub open spec fn keep_profile_char(c: char) -> bool {
    ('a' <= c && c <= 'z') || ('A' <= c && c <= 'Z') || ('0' <= c && c <= '9') || c == '-'
}

/// The profile name as used in paths: lowercased, then only the kept characters.
pub open spec fn spec_profile_name(profile: Seq<char>) -> Seq<char> {
    spec_lowercase(profile).filter(|c: char| keep_profile_char(c))
}

/// The characters of `lowered` that a profile name keeps, in order.
pub fn keep_profile_chars(lowered: &str) -> (r: String)
    ensures
        r@ == lowered@.filter(|c: char| keep_profile_char(c)),
{
    let n = lowered.unicode_len();
    let mut out = String::new();
    let mut i: usize = 0;
    while i < n
        invariant
            n == lowered@.len(),
            i <= n,
            out@ == lowered@.take(i as int).filter(|c: char| keep_profile_char(c)),
        decreases n - i,
    {
        let c = lowered.get_char(i);
        if ('a' <= c && c <= 'z') || ('A' <= c && c <= 'Z') || ('0' <= c && c <= '9') || c == '-' {
            out.append(lowered.substring_char(i, i + 1));
        }
        proof {
            reveal(Seq::filter);
            assert(lowered@.take(i + 1).drop_last() =~= lowered@.take(i as int));
            assert(lowered@.subrange(i as int, i + 1) =~= seq![c]);
        }
        i = i + 1;
    }
    proof {
        assert(lowered@.take(n as int) =~= lowered@);
    }
    out
}

/// The profile name as used in paths; see `spec_profile_name`.
pub fn sanitize_profile_name(profile: &str) -> (r: String)
    ensures
        r@ == spec_profile_name(profile@),
{
    let lower = to_lowercase(profile);
    keep_profile_chars(lower.as_str())
}

/// The game's save path of the options of a profile, long form.
pub open spec fn spec_save_path_long(name: Seq<char>) -> Seq<char> {
    "%ssettings\\OptionsAndPros\\"@ + name + "\\main.opt"@
}

/// The game's save path of the options of a profile, short form.
pub open spec fn spec_save_path_short(name: Seq<char>) -> Seq<char> {
    "/OptionsAndPros/"@ + name + "/main.opt"@
}

/// The directory that holds a profile's saves.
pub open spec fn spec_profile_dir(name: Seq<char>) -> Seq<char> {
    "./data/settings/OptionsAndPros/"@ + name
}

/// The profile in use: its name, and the save paths made from it.
pub struct ProfileContext {
    pub profile_name: Option<String>,
    pub save_path_long: String,
    pub save_path_short: String,
}

impl ProfileContext {
    /// The context for the `--profile` argument, if one was given; without it the paths
    /// are empty and the game keeps its own.
    pub fn init(profile: Option<&str>) -> (r: Self)
        ensures
            match profile {
                Some(p) => {
                    let name = spec_profile_name(p@);
                    &&& r.profile_name matches Some(n) && n@ == name
                    &&& r.save_path_long@ == spec_save_path_long(name)
                    &&& r.save_path_short@ == spec_save_path_short(name)
                },
                None => {
                    &&& r.profile_name is None
                    &&& r.save_path_long@ == Seq::<char>::empty()
                    &&& r.save_path_short@ == Seq::<char>::empty()
                },
            },
    {
        match profile {
            Some(p) => {
                let name = sanitize_profile_name(p);
                let long = save_path_long(name.as_str());
                let short = save_path_short(name.as_str());
                ProfileContext { profile_name: Some(name), save_path_long: long, save_path_short: short }
            },
            None => ProfileContext {
                profile_name: None,
                save_path_long: String::new(),
                save_path_short: String::new(),
            },
        }
    }

    /// The profile's name, if one is in use.
    pub fn get_profile_name(&self) -> (r: Option<String>)
        ensures
            match (r, self.profile_name) {
                (Some(a), Some(b)) => a@ == b@,
                (None, None) => true,
                _ => false,
            },
    {
        match &self.profile_name {
            Some(n) => Some(n.clone()),
            None => None,
        }
    }
}

/// The long save path of the options of profile `name`.
pub fn save_path_long(name: &str) -> (r: String)
    ensures
        r@ == spec_save_path_long(name@),
{
    let mut s = String::from_str("%ssettings\\OptionsAndPros\\");
    s.append(name);
    s.append("\\main.opt");
    s
}

/// The short save path of the options of profile `name`.
pub fn save_path_short(name: &str) -> (r: String)
    ensures
        r@ == spec_save_path_short(name@),
{
    let mut s = String::from_str("/OptionsAndPros/");
    s.append(name);
    s.append("/main.opt");
    s
}

/// The directory that holds the saves of profile `name`.
pub fn profile_dir(name: &str) -> (r: String)
    ensures
        r@ == spec_profile_dir(name@),
{
    let mut s = String::from_str("./data/settings/OptionsAndPros/");
    s.append(name);
    s
}


/// A profile name as used in paths holds only ASCII letters, digits and '-', so that it
/// cannot leave the profile directory.
pub proof fn lemma_profile_name_safe(profile: Seq<char>)
    ensures
        forall|i: int|
            0 <= i < spec_profile_name(profile).len() ==> keep_profile_char(
                #[trigger] spec_profile_name(profile)[i],
            ),
{
    let s = spec_lowercase(profile);
    assert forall|i: int| 0 <= i < spec_profile_name(profile).len() implies keep_profile_char(
        #[trigger] spec_profile_name(profile)[i],
    ) by {
        s.lemma_filter_pred(|c: char| keep_profile_char(c), i);
    }
}

} // verus!

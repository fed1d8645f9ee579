use vstd::prelude::*;

use crate::table::NamedTable;

verus! {

/// `s` without its leading dashes.
pub open spec fn trim_dashes(s: Seq<char>) -> Seq<char>
    decreases s.len(),
{
    if s.len() > 0 && s[0] == '-' {
        trim_dashes(s.drop_first())
    } else {
        s
    }
}

pub open spec fn is_flag(s: Seq<char>) -> bool {
    s.len() > 0 && s[0] == '-'
}

/// The options read so far, and the option still waiting for its value.
pub open spec fn parse_step(
    state: (Map<Seq<char>, Option<Seq<char>>>, Option<Seq<char>>),
    arg: Seq<char>,
) -> (Map<Seq<char>, Option<Seq<char>>>, Option<Seq<char>>) {
    let (m, cur) = state;
    if is_flag(arg) {
        let m2 = match cur {
            Some(k) => m.insert(k, None),
            None => m,
        };
        (m2, Some(trim_dashes(arg)))
    } else {
        match cur {
            Some(k) => (m.insert(k, Some(arg)), None),
            None => (m, None),
        }
    }
}

pub open spec fn parse_prefix(args: Seq<Seq<char>>) -> (
    Map<Seq<char>, Option<Seq<char>>>,
    Option<Seq<char>>,
)
    decreases args.len(),
{
    if args.len() == 0 {
        (Map::empty(), None)
    } else {
        parse_step(parse_prefix(args.drop_last()), args.last())
    }
}

/// The options of a command line: an argument that starts with a dash names an option
/// (without its dashes); the argument after it, where that does not start with a dash, is
/// its value; a later option of the same name wins; arguments that follow no option are
/// ignored.
pub open spec fn spec_parse_args(args: Seq<Seq<char>>) -> Map<Seq<char>, Option<Seq<char>>> {
    let (m, cur) = parse_prefix(args);
    match cur {
        Some(k) => m.insert(k, None),
        None => m,
    }
}

pub open spec fn opt_view(o: Option<String>) -> Option<Seq<char>> {
    match o {
        Some(s) => Some(s@),
        None => None,
    }
}

fn clone_opt(o: &Option<String>) -> (r: Option<String>)
    ensures
        opt_view(r) == opt_view(*o),
{
    match o {
        Some(s) => Some(s.clone()),
        None => None,
    }
}

fn starts_with_dash(s: &str) -> (r: bool)
    ensures
        r == is_flag(s@),
{
    let n = s.unicode_len();
    n > 0 && s.get_char(0) == '-'
}

fn trim_start_dashes(s: &str) -> (r: String)
    ensures
        r@ == trim_dashes(s@),
{
    let n = s.unicode_len();
    let mut k: usize = 0;
    proof {
        assert(s@.subrange(0, n as int) =~= s@);
    }
    while k < n && s.get_char(k) == '-'
        invariant
            n == s@.len(),
            k <= n,
            trim_dashes(s@) == trim_dashes(s@.subrange(k as int, n as int)),
        decreases n - k,
    {
        proof {
            assert(s@.subrange(k as int, n as int).drop_first() =~= s@.subrange(k + 1, n as int));
        }
        k = k + 1;
    }
    let rest = s.substring_char(k, n);
    rest.to_owned()
}

/// The command line's options by name.
pub struct ArgCollection {
    args: NamedTable<Option<String>>,
}

impl ArgCollection {
    pub closed spec fn args(self) -> Map<Seq<char>, Option<Seq<char>>> {
        self.args.map().map_values(|o: Option<String>| opt_view(o))
    }

    pub closed spec fn wf(self) -> bool {
        self.args.wf()
    }

    /// Reads the options out of the command-line arguments `args`.
    pub fn new(args: Vec<String>) -> (r: Self)
        ensures
            r.wf(),
            r.args() == spec_parse_args(args@.map_values(|s: String| s@)),
    {
        let ghost views = args@.map_values(|s: String| s@);
        let mut collection: NamedTable<Option<String>> = NamedTable::new();
        let mut cur_arg: Option<String> = None;
        let n = args.len();
        let mut i: usize = 0;
        while i < n
            invariant
                n == args@.len(),
                i <= n,
                views == args@.map_values(|s: String| s@),
                collection.wf(),
                (collection.map().map_values(|o: Option<String>| opt_view(o)), opt_view(cur_arg))
                    == parse_prefix(views.take(i as int)),
            decreases n - i,
        {
            proof {
                assert(views.take(i + 1).drop_last() =~= views.take(i as int));
                assert(views[i as int] == args@[i as int]@);
            }
            let ghost before = collection.map().map_values(|o: Option<String>| opt_view(o));
            let arg = &args[i];
            if starts_with_dash(arg.as_str()) {
                if let Some(old_arg) = &cur_arg {
                    collection.insert(old_arg.as_str(), None);
                    proof {
                        assert(collection.map().map_values(|o: Option<String>| opt_view(o))
                            =~= before.insert(old_arg@, None));
                    }
                }
                cur_arg = Some(trim_start_dashes(arg.as_str()));
            } else {
                if let Some(key) = &cur_arg {
                    collection.insert(key.as_str(), Some(arg.clone()));
                    proof {
                        assert(collection.map().map_values(|o: Option<String>| opt_view(o))
                            =~= before.insert(key@, Some(arg@)));
                    }
                    cur_arg = None;
                }
            }
            i = i + 1;
        }
        proof {
            assert(views.take(n as int) =~= views);
        }
        let ghost before = collection.map().map_values(|o: Option<String>| opt_view(o));
        if let Some(old_arg) = &cur_arg {
            collection.insert(old_arg.as_str(), None);
            proof {
                assert(collection.map().map_values(|o: Option<String>| opt_view(o)) =~= before.insert(
                    old_arg@,
                    None,
                ));
            }
        }
        let r = Self { args: collection };
        r
    }

    /// The value given to the option `arg`: `None` where it is absent or has no value.
    pub fn get_arg_value(&self, arg: &str) -> (r: Option<String>)
        requires
            self.wf(),
        ensures
            opt_view(r) == (if self.args().contains_key(arg@) {
                self.args()[arg@]
            } else {
                None
            }),
    {
        match self.args.get(arg) {
            None => None,
            Some(v) => clone_opt(v),
        }
    }

    /// Whether the option `arg` was given, with or without a value.
    pub fn has_arg(&self, arg: &str) -> (r: bool)
        requires
            self.wf(),
        ensures
            r == self.args().contains_key(arg@),
    {
        self.args.get(arg).is_some()
    }
}

} // verus!

//! Reading `--flag value` pairs from a command line.

use vstd::prelude::*;
use vstd::string::*;

verus! {

/// The texts of the arguments.
pub open spec fn args_view(args: Seq<String>) -> Seq<Seq<char>> {
    args.map_values(|s: String| s@)
}

/// The argument right after the first occurrence of `name` that has an argument after it.
pub open spec fn flag_value(args: Seq<Seq<char>>, name: Seq<char>) -> Option<Seq<char>>
    decreases args.len(),
{
    if args.len() < 2 {
        None
    } else if args[0] == name {
        Some(args[1])
    } else {
        flag_value(args.drop_first(), name)
    }
}

/// The text of the error for a missing flag.
pub open spec fn missing_flag_text(name: Seq<char>) -> Seq<char> {
    "Missing required flag: "@ + name
}

/// The value that follows the first `name` among the arguments, if any.
pub fn optional_flag(args: &[String], name: &str) -> (r: Option<String>)
    ensures
        match r {
            Some(v) => flag_value(args_view(args@), name@) == Some(v@),
            None => flag_value(args_view(args@), name@) is None,
        },
{
    let ghost all = args_view(args@);
    let mut i: usize = 0;
    assert(all.subrange(0, all.len() as int) =~= all);
    while i < args.len() && args.len() - i >= 2
        invariant
            i <= args.len(),
            all == args_view(args@),
            flag_value(all, name@) == flag_value(all.subrange(i as int, all.len() as int), name@),
        decreases args.len() - i,
    {
        let ghost rest = all.subrange(i as int, all.len() as int);
        if crate::text::str_equal(args[i].as_str(), name) {
            assert(rest[0] == all[i as int]);
            assert(rest[1] == all[i + 1]);
            return Some(args[i + 1].clone());
        }
        assert(rest.drop_first() =~= all.subrange(i + 1, all.len() as int));
        i = i + 1;
    }
    None
}

/// The value that follows `name`; an error naming the flag when there is none.
pub fn required_flag(args: &[String], name: &str) -> (r: Result<String, String>)
    ensures
        match r {
            Ok(v) => flag_value(args_view(args@), name@) == Some(v@),
            Err(m) => flag_value(args_view(args@), name@) is None && m@ == missing_flag_text(
                name@,
            ),
        },
{
    match optional_flag(args, name) {
        Some(v) => Ok(v),
        None => Err(String::from_str("Missing required flag: ").concat(name)),
    }
}

} // verus!

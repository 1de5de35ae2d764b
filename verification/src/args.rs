//! Looking up named options in a list of command-line arguments.

use crate::text::same_text;
use vstd::prelude::*;

verus! {

/// The characters of each argument of a list.
pub open spec fn arg_texts(args: Seq<String>) -> Seq<Seq<char>> {
    Seq::new(args.len(), |i: int| args[i]@)
}

/// The value of a named option: the argument that follows the first
/// occurrence of the flag. There is none where the flag does not occur, and
/// none where its first occurrence is the last argument.
pub open spec fn arg_value(args: Seq<Seq<char>>, flag: Seq<char>) -> Option<Seq<char>>
    decreases args.len(),
{
    if args.len() == 0 {
        None
    } else if args[0] == flag {
        if args.len() > 1 {
            Some(args[1])
        } else {
            None
        }
    } else {
        arg_value(args.drop_first(), flag)
    }
}

/// The value of the option named `flag` among `args`: a copy of the argument
/// that follows the first occurrence of `flag`.
pub fn get_arg(args: &[String], flag: &str) -> (value: Option<String>)
    ensures
        value is Some ==> arg_value(arg_texts(args@), flag@) == Some(value->Some_0@),
        value is None ==> arg_value(arg_texts(args@), flag@).is_none(),
{
    let ghost texts = arg_texts(args@);
    let mut i: usize = 0;
    assert(texts.skip(0) =~= texts);
    while i < args.len()
        invariant
            i <= args.len(),
            texts == arg_texts(args@),
            arg_value(texts, flag@) == arg_value(texts.skip(i as int), flag@),
        decreases args.len() - i,
    {
        let ghost rest = texts.skip(i as int);
        if same_text(args[i].as_str(), flag) {
            if i + 1 < args.len() {
                return Some(args[i + 1].clone());
            } else {
                return None;
            }
        }
        assert(rest.drop_first() =~= texts.skip(i + 1));
        i += 1;
    }
    None
}

} // verus!

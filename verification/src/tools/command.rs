//! Building the argument vectors handed to the `aelm` CLI.
use vstd::prelude::*;

use crate::cli_runner::str_texts;
use crate::text::{lemma_texts_push, owned, texts};

verus! {

/// The arguments `parts`, as owned strings.
pub fn argv(parts: &[&str]) -> (r: Vec<String>)
    ensures
        texts(r@) == str_texts(parts@),
{
    let mut r: Vec<String> = Vec::new();
    let n = parts.len();
    let mut i: usize = 0;
    while i < n
        invariant
            n == parts@.len(),
            0 <= i <= n,
            texts(r@) == str_texts(parts@).take(i as int),
        decreases n - i,
    {
        let ghost before = r@;
        let t = owned(parts[i]);
        r.push(t);
        proof {
            lemma_texts_push(before, t);
        }
        assert(str_texts(parts@).take(i + 1) =~= str_texts(parts@).take(i as int).push(parts@[i as int]@));
        i = i + 1;
    }
    assert(str_texts(parts@).take(n as int) =~= str_texts(parts@));
    r
}

/// Appends one argument.
pub fn push_arg(args: &mut Vec<String>, a: &str)
    ensures
        texts(final(args)@) == texts(old(args)@).push(a@),
{
    let t = owned(a);
    let ghost before = args@;
    args.push(t);
    proof {
        lemma_texts_push(before, t);
    }
}

/// The arguments `flag value` when a value is given, none otherwise.
pub open spec fn option_args(flag: Seq<char>, value: Option<Seq<char>>) -> Seq<Seq<char>> {
    match value {
        Some(v) => seq![flag, v],
        None => Seq::empty(),
    }
}

/// The view of an optional string slice.
pub open spec fn opt_text(v: Option<&str>) -> Option<Seq<char>> {
    match v {
        Some(s) => Some(s@),
        None => None,
    }
}

/// Appends `flag value` when a value is given.
pub fn push_option(args: &mut Vec<String>, flag: &str, value: Option<&str>)
    ensures
        texts(final(args)@) == texts(old(args)@) + option_args(flag@, opt_text(value)),
{
    match value {
        Some(v) => {
            push_arg(args, flag);
            push_arg(args, v);
            assert(texts(old(args)@).push(flag@).push(v@) =~= texts(old(args)@) + seq![flag@, v@]);
        },
        None => {
            assert(texts(old(args)@) + Seq::<Seq<char>>::empty() =~= texts(old(args)@));
        },
    }
}

} // verus!

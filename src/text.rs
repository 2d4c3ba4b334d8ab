use vstd::prelude::*;

use crate::types::{sorts_model, Sort};

verus! {

/// The names of the sorts, separated by commas.
pub open spec fn sorts_text(s: Seq<Seq<char>>) -> Seq<char>
    decreases s.len(),
{
    if s.len() == 0 {
        Seq::empty()
    } else if s.len() == 1 {
        s[0]
    } else {
        sorts_text(s.drop_last()) + ","@ + s.last()
    }
}

/// How a signature is written in messages: `name(Int,Int;Bool)`.
pub open spec fn signature_text(name: Seq<char>, ins: Seq<Seq<char>>, outs: Seq<Seq<char>>) -> Seq<char> {
    name + "("@ + sorts_text(ins) + ";"@ + sorts_text(outs) + ")"@
}

pub fn owned(s: &str) -> (r: String)
    ensures
        r@ == s@,
{
    s.to_owned()
}

pub fn concat2(a: &str, b: &str) -> (r: String)
    ensures
        r@ == a@ + b@,
{
    let s = a.to_owned();
    s.concat(b)
}

pub fn concat3(a: &str, b: &str, c: &str) -> (r: String)
    ensures
        r@ == a@ + b@ + c@,
{
    let s = a.to_owned();
    let s = s.concat(b);
    s.concat(c)
}

pub fn concat4(a: &str, b: &str, c: &str, d: &str) -> (r: String)
    ensures
        r@ == a@ + b@ + c@ + d@,
{
    let s = a.to_owned();
    let s = s.concat(b);
    let s = s.concat(c);
    s.concat(d)
}

pub fn write_sorts(sorts: &Vec<Sort>) -> (r: String)
    ensures
        r@ == sorts_text(sorts_model(sorts@)),
{
    let mut r = String::new();
    let mut i: usize = 0;
    while i < sorts.len()
        invariant
            i <= sorts@.len(),
            r@ == sorts_text(sorts_model(sorts@.subrange(0, i as int))),
        decreases sorts@.len() - i,
    {
        proof {
            let pre = sorts_model(sorts@.subrange(0, i as int));
            let next = sorts_model(sorts@.subrange(0, i + 1));
            assert(next.drop_last() =~= pre);
            assert(next.last() == sorts@[i as int]@);
        }
        if i > 0 {
            r = r.concat(",");
        }
        r = r.concat(sorts[i].0.0.as_str());
        i = i + 1;
    }
    assert(sorts@.subrange(0, sorts@.len() as int) =~= sorts@);
    r
}

pub fn write_signature(name: &str, ins: &Vec<Sort>, outs: &Vec<Sort>) -> (r: String)
    ensures
        r@ == signature_text(name@, sorts_model(ins@), sorts_model(outs@)),
{
    let a = write_sorts(ins);
    let b = write_sorts(outs);
    let s = concat4(name, "(", a.as_str(), ";");
    concat2(s.as_str(), concat2(b.as_str(), ")").as_str())
}

} // verus!

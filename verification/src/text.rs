//! Small string operations that vstd does not provide.
use vstd::prelude::*;
use vstd::string::*;

verus! {

/// `String::push`: std documents that it appends the given `char` to the end
/// of the string. Trusted: the contract says exactly that.
#[verifier::external_body]
pub(crate) fn push_char(s: &mut String, c: char)
    ensures
        final(s)@ == old(s)@.push(c),
{
    s.push(c);
}

/// Removes the last `char` of the string and returns it, or returns `None`
/// (leaving the string alone) when the string is empty, as `String::pop`
/// does.
pub(crate) fn pop_char(s: &mut String) -> (r: Option<char>)
    ensures
        old(s)@.len() == 0 ==> r is None && final(s)@ == old(s)@,
        old(s)@.len() > 0 ==> r == Some(old(s)@.last()) && final(s)@ == old(s)@.drop_last(),
{
    let n = s.as_str().unicode_len();
    if n == 0 {
        None
    } else {
        let c = s.as_str().get_char(n - 1);
        let rest = String::from_str(s.as_str().substring_char(0, n - 1));
        proof {
            assert(old(s)@.subrange(0, n - 1) =~= old(s)@.drop_last());
        }
        *s = rest;
        Some(c)
    }
}

} // verus!

//! Text handling borrowed from the standard library: decoding a payload, and
//! the two operations that turn a raw command into the form that the rules are
//! matched against. The standard library does this work; what is stated of it
//! here is taken on trust.

use vstd::prelude::*;
use vstd::utf8::{decode_utf8, valid_utf8};

verus! {

/// Whether `c` has the Unicode property White_Space, the test by which
/// `str::trim` decides what to remove.
pub uninterp spec fn white_space(c: char) -> bool;

/// The lowercase equivalent of `s` by the Unicode case mappings, as
/// `str::to_lowercase` computes it.
pub uninterp spec fn lowercased(s: Seq<char>) -> Seq<char>;

/// The text that `String::from_utf8_lossy` reads out of `bytes`: their
/// decoding, with U+FFFD in place of what is not valid UTF-8.
pub uninterp spec fn lossy_text(bytes: Seq<u8>) -> Seq<char>;

/// `s` without its leading white space.
pub open spec fn without_leading_space(s: Seq<char>) -> Seq<char>
    decreases s.len(),
{
    if s.len() > 0 && white_space(s.first()) {
        without_leading_space(s.drop_first())
    } else {
        s
    }
}

/// `s` without its trailing white space.
pub open spec fn without_trailing_space(s: Seq<char>) -> Seq<char>
    decreases s.len(),
{
    if s.len() > 0 && white_space(s.last()) {
        without_trailing_space(s.drop_last())
    } else {
        s
    }
}

/// `s` without leading and trailing white space.
pub open spec fn trimmed(s: Seq<char>) -> Seq<char> {
    without_trailing_space(without_leading_space(s))
}

/// Whether every character of `s` is white space.
pub open spec fn all_white_space(s: Seq<char>) -> bool {
    forall|i: int| 0 <= i < s.len() ==> white_space(#[trigger] s[i])
}

/// White space put in front of a text is removed with the text's own.
pub proof fn leading_padding_is_removed(pad: Seq<char>, s: Seq<char>)
    ensures
        all_white_space(pad) ==> without_leading_space(pad + s) == without_leading_space(s),
    decreases pad.len(),
{
    if all_white_space(pad) {
        if pad.len() == 0 {
            assert(pad + s =~= s);
        } else {
            assert(white_space(pad[0]));
            assert((pad + s).first() == pad[0]);
            assert((pad + s).drop_first() =~= pad.drop_first() + s);
            assert(all_white_space(pad.drop_first())) by {
                assert forall|i: int| 0 <= i < pad.drop_first().len() implies white_space(
                    #[trigger] pad.drop_first()[i],
                ) by {
                    assert(pad.drop_first()[i] == pad[i + 1]);
                }
            }
            leading_padding_is_removed(pad.drop_first(), s);
        }
    }
}

/// White space put behind a text is removed with the text's own.
pub proof fn trailing_padding_is_removed(s: Seq<char>, pad: Seq<char>)
    ensures
        all_white_space(pad) ==> without_trailing_space(s + pad) == without_trailing_space(s),
    decreases pad.len(),
{
    if all_white_space(pad) {
        if pad.len() == 0 {
            assert(s + pad =~= s);
        } else {
            assert(white_space(pad[pad.len() - 1]));
            assert((s + pad).last() == pad.last());
            assert((s + pad).drop_last() =~= s + pad.drop_last());
            assert(all_white_space(pad.drop_last())) by {
                assert forall|i: int| 0 <= i < pad.drop_last().len() implies white_space(
                    #[trigger] pad.drop_last()[i],
                ) by {
                    assert(pad.drop_last()[i] == pad[i]);
                }
            }
            trailing_padding_is_removed(s, pad.drop_last());
        }
    }
}

/// What is left of a text followed by white space, once the leading white
/// space is gone, is what is left of the text alone, followed by that white
/// space; unless the text was white space only, and then nothing is left.
proof fn leading_space_before_padding(s: Seq<char>, pad: Seq<char>)
    requires
        all_white_space(pad),
    ensures
        without_leading_space(s).len() > 0 ==> without_leading_space(s + pad)
            == without_leading_space(s) + pad,
        without_leading_space(s).len() == 0 ==> without_leading_space(s + pad).len() == 0,
    decreases s.len(),
{
    if s.len() == 0 {
        assert(s + pad =~= pad);
        leading_padding_is_removed(pad, Seq::<char>::empty());
        assert(pad + Seq::<char>::empty() =~= pad);
    } else {
        assert((s + pad).first() == s.first());
        if white_space(s.first()) {
            assert((s + pad).drop_first() =~= s.drop_first() + pad);
            leading_space_before_padding(s.drop_first(), pad);
        }
    }
}

/// Trimming does not see white space put round a text: the padded text and
/// the text alone are trimmed to the same.
pub proof fn trimmed_ignores_padding(before: Seq<char>, s: Seq<char>, after: Seq<char>)
    ensures
        all_white_space(before) && all_white_space(after) ==> trimmed(before + s + after)
            == trimmed(s),
{
    if all_white_space(before) && all_white_space(after) {
        assert(before + s + after =~= before + (s + after));
        leading_padding_is_removed(before, s + after);
        leading_space_before_padding(s, after);
        if without_leading_space(s).len() > 0 {
            trailing_padding_is_removed(without_leading_space(s), after);
        } else {
            assert(without_leading_space(s + after) =~= without_leading_space(s));
        }
    }
}

/// Calls `str::trim`. Trusted: the slice that comes back is `s` with every
/// leading and every trailing character that has the White_Space property
/// removed, and nothing else changed; so what is left neither starts nor ends
/// with such a character.
#[verifier::external_body]
pub(crate) fn trim<'a>(s: &'a str) -> (r: &'a str)
    ensures
        r@ == trimmed(s@),
        r@.len() > 0 ==> !white_space(r@.first()) && !white_space(r@.last()),
{
    s.trim()
}

/// Calls `str::to_lowercase`. Trusted: the result depends on the characters
/// of `s` alone; which characters it holds is left to the standard library.
#[verifier::external_body]
pub(crate) fn to_lowercase(s: &str) -> (r: String)
    ensures
        r@ == lowercased(s@),
{
    s.to_lowercase()
}

/// Calls `String::from_utf8_lossy`. Trusted: the result depends on the bytes
/// alone, and bytes that are valid UTF-8 are decoded as they stand; what is
/// put where they are not valid is left to the standard library.
#[verifier::external_body]
pub(crate) fn decode_lossy(bytes: &[u8]) -> (r: String)
    ensures
        r@ == lossy_text(bytes@),
        valid_utf8(bytes@) ==> r@ == decode_utf8(bytes@),
{
    String::from_utf8_lossy(bytes).into_owned()
}

} // verus!

//! Masking of captured text before it is shown on a console.

use vstd::prelude::*;
use vstd::string::{StrSliceExecFns, StringExecFns};
use vstd::utf8::encode_utf8;

verus! {

/// The masked form of a text.
///
/// A text of more than two bytes in UTF-8 keeps its first and its last
/// character; between them stand as many asterisks as the text has bytes,
/// less two. Any shorter text becomes four asterisks.
pub open spec fn masked(s: Seq<char>) -> Seq<char> {
    let bytes = encode_utf8(s).len();
    if bytes > 2 {
        seq![s.first()] + Seq::new((bytes - 2) as nat, |i: int| '*') + seq![s.last()]
    } else {
        seq!['*', '*', '*', '*']
    }
}

/// Hides all but the first and last character of a text.
pub fn mask_sensitive(input: &str) -> (out: String)
    ensures
        out@ == masked(input@),
{
    let bytes: usize = input.as_bytes().len();
    if bytes > 2 {
        let count: usize = input.unicode_len();
        assert(count >= 1) by {
            if input@.len() == 0 {
                assert(encode_utf8(input@).len() == 0);
            }
        }
        let mut out: String = String::new();
        out.append(input.substring_char(0, 1));
        assert(out@ =~= seq![input@.first()]);
        let mut i: usize = 0;
        while i < bytes - 2
            invariant
                bytes > 2,
                0 <= i <= bytes - 2,
                out@ == seq![input@.first()] + Seq::new(i as nat, |k: int| '*'),
            decreases bytes - 2 - i,
        {
            proof {
                reveal_strlit("*");
            }
            let ghost before = out@;
            out.append("*");
            assert(out@ =~= seq![input@.first()] + Seq::new((i + 1) as nat, |k: int| '*')) by {
                assert("*"@ =~= seq!['*']);
            }
            i = i + 1;
        }
        let ghost stars = out@;
        out.append(input.substring_char(count - 1, count));
        proof {
            assert(input@.subrange(count - 1, count as int) =~= seq![input@.last()]);
            assert(out@ =~= stars + seq![input@.last()]);
            assert(encode_utf8(input@).len() == bytes);
        }
        out
    } else {
        let out: String = "****".to_owned();
        proof {
            reveal_strlit("****");
            assert(out@.len() == 4);
            assert(out@[0] == '*' && out@[1] == '*' && out@[2] == '*' && out@[3] == '*');
            assert(out@ =~= seq!['*', '*', '*', '*']);
        }
        out
    }
}

} // verus!

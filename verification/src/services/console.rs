//! Line discipline of the TCP-to-UART console bridge.
//!
//! Bytes typed by the TCP client are rewritten before they reach the
//! Raspberry Pi's UART: DEL (0x7F) becomes backspace (0x08), and a carriage
//! return, alone or followed by a line feed within the same read, becomes a
//! single line feed. Each read is rewritten on its own, as it arrives.
//! Everything else passes through unchanged; UART output is forwarded to the
//! client as is.

use vstd::prelude::*;

verus! {

/// Console rewriting of the bytes `s` received in one TCP read.
pub open spec fn normalize(s: Seq<u8>) -> Seq<u8>
    decreases s.len(),
{
    if s.len() == 0 {
        Seq::empty()
    } else if s[0] == 0x7f {
        seq![0x08u8] + normalize(s.drop_first())
    } else if s[0] == 13 {
        if s.len() >= 2 && s[1] == 10 {
            seq![10u8] + normalize(s.subrange(2, s.len() as int))
        } else {
            seq![10u8] + normalize(s.drop_first())
        }
    } else {
        seq![s[0]] + normalize(s.drop_first())
    }
}

/// Rewrites one TCP read for the UART: DEL to backspace, CR and CRLF to LF.
pub fn normalize_console_input(inbuf: &[u8]) -> (out: Vec<u8>)
    ensures
        out@ == normalize(inbuf@),
{
    let n = inbuf.len();
    let mut out: Vec<u8> = Vec::new();
    let mut i: usize = 0;
    assert(inbuf@.subrange(0, n as int) =~= inbuf@);
    assert(out@ + normalize(inbuf@) =~= normalize(inbuf@));
    while i < n
        invariant
            n == inbuf@.len(),
            i <= n,
            out@ + normalize(inbuf@.subrange(i as int, n as int)) == normalize(inbuf@),
        decreases n - i,
    {
        let ghost rest = inbuf@.subrange(i as int, n as int);
        let b = inbuf[i];
        if b == 0x7f {
            out.push(0x08);
            i = i + 1;
            assert(rest.drop_first() =~= inbuf@.subrange(i as int, n as int));
        } else if b == 13 {
            out.push(10);
            if i + 1 < n && inbuf[i + 1] == 10 {
                i = i + 2;
                assert(rest.subrange(2, rest.len() as int) =~= inbuf@.subrange(i as int, n as int));
            } else {
                i = i + 1;
                assert(rest.drop_first() =~= inbuf@.subrange(i as int, n as int));
            }
        } else {
            out.push(b);
            i = i + 1;
            assert(rest.drop_first() =~= inbuf@.subrange(i as int, n as int));
        }
        proof {
            assert(out@ + normalize(inbuf@.subrange(i as int, n as int)) =~= normalize(inbuf@));
        }
    }
    assert(inbuf@.subrange(n as int, n as int) =~= Seq::<u8>::empty());
    assert(out@ =~= normalize(inbuf@));
    out
}

/// The rewritten bytes are never longer than the input and contain no
/// carriage return or DEL.
pub proof fn lemma_normalize_shape(s: Seq<u8>)
    ensures
        normalize(s).len() <= s.len(),
        forall|i: int| 0 <= i < normalize(s).len() ==> normalize(s)[i] != 13 && normalize(s)[i] != 0x7f,
    decreases s.len(),
{
    if s.len() > 0 {
        if s[0] == 13 && s.len() >= 2 && s[1] == 10 {
            lemma_normalize_shape(s.subrange(2, s.len() as int));
        } else {
            lemma_normalize_shape(s.drop_first());
        }
        let n = normalize(s);
        assert forall|i: int| 0 <= i < n.len() implies n[i] != 13 && n[i] != 0x7f by {
            if i > 0 {
                if s[0] == 13 && s.len() >= 2 && s[1] == 10 {
                    assert(n[i] == normalize(s.subrange(2, s.len() as int))[i - 1]);
                } else {
                    assert(n[i] == normalize(s.drop_first())[i - 1]);
                }
            }
        }
    }
}

/// Bytes other than CR pass through unchanged, except DEL, which becomes
/// backspace: on input without a carriage return, the rewriting is a
/// byte-for-byte map.
pub proof fn lemma_normalize_without_cr(s: Seq<u8>)
    requires
        forall|i: int| 0 <= i < s.len() ==> s[i] != 13,
    ensures
        normalize(s) == Seq::new(s.len(), |i: int| if s[i] == 0x7f { 0x08u8 } else { s[i] }),
    decreases s.len(),
{
    if s.len() > 0 {
        let t = s.drop_first();
        lemma_normalize_without_cr(t);
        assert(normalize(s) =~= Seq::new(s.len(), |i: int| if s[i] == 0x7f { 0x08u8 } else { s[i] }));
    } else {
        assert(normalize(s) =~= Seq::new(s.len(), |i: int| if s[i] == 0x7f { 0x08u8 } else { s[i] }));
    }
}

/// A lone carriage return and a CRLF pair each become one line feed.
pub proof fn lemma_normalize_line_ends()
    ensures
        normalize(seq![13u8]) == seq![10u8],
        normalize(seq![13u8, 10u8]) == seq![10u8],
{
    assert(seq![13u8].drop_first() =~= Seq::<u8>::empty());
    assert(normalize(Seq::<u8>::empty()) =~= Seq::<u8>::empty());
    assert(normalize(seq![13u8]) =~= seq![10u8]);
    assert(seq![13u8, 10u8].subrange(2, 2) =~= Seq::<u8>::empty());
    assert(normalize(seq![13u8, 10u8]) =~= seq![10u8]);
}

/// Rewriting works piece by piece: a read split anywhere except between
/// the CR and LF of a CRLF pair rewrites to the concatenation of its
/// pieces' rewritings.
pub proof fn lemma_normalize_concat(a: Seq<u8>, b: Seq<u8>)
    requires
        !(a.len() > 0 && a.last() == 13 && b.len() > 0 && b[0] == 10),
    ensures
        normalize(a + b) == normalize(a) + normalize(b),
    decreases a.len(),
{
    if a.len() == 0 {
        assert(a + b =~= b);
        assert(normalize(a) + normalize(b) =~= normalize(b));
    } else if a[0] == 13 && a.len() >= 2 && a[1] == 10 {
        let t = a.subrange(2, a.len() as int);
        assert(t.len() > 0 ==> t.last() == a.last());
        lemma_normalize_concat(t, b);
        assert((a + b).subrange(2, (a + b).len() as int) =~= t + b);
        assert(normalize(a + b) =~= normalize(a) + normalize(b));
    } else if a[0] == 13 && a.len() == 1 {
        assert(a.drop_first() =~= Seq::<u8>::empty());
        assert(normalize(a.drop_first()) =~= Seq::<u8>::empty());
        assert((a + b).drop_first() =~= b);
        assert(normalize(a + b) =~= normalize(a) + normalize(b));
    } else {
        let t = a.drop_first();
        assert(t.len() > 0 ==> t.last() == a.last());
        lemma_normalize_concat(t, b);
        assert((a + b).drop_first() =~= t + b);
        assert(normalize(a + b) =~= normalize(a) + normalize(b));
    }
}

} // verus!

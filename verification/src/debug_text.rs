//! Rendering of integers and byte lists as Rust's `Debug` formatting writes them.

use vstd::prelude::*;

verus! {

/// The text of one decimal digit.
pub open spec fn digit_text(d: nat) -> Seq<char> {
    if d == 0 {
        "0"@
    } else if d == 1 {
        "1"@
    } else if d == 2 {
        "2"@
    } else if d == 3 {
        "3"@
    } else if d == 4 {
        "4"@
    } else if d == 5 {
        "5"@
    } else if d == 6 {
        "6"@
    } else if d == 7 {
        "7"@
    } else if d == 8 {
        "8"@
    } else {
        "9"@
    }
}

/// The decimal text of a natural number, most significant digit first,
/// without leading zeros.
pub open spec fn decimal_text(n: nat) -> Seq<char>
    decreases n,
{
    if n < 10 {
        digit_text(n)
    } else {
        decimal_text(n / 10) + digit_text(n % 10)
    }
}

/// The items of a byte list, in decimal, separated by `", "`.
pub open spec fn byte_items_text(bytes: Seq<u8>) -> Seq<char>
    decreases bytes.len(),
{
    if bytes.len() == 0 {
        Seq::empty()
    } else if bytes.len() == 1 {
        decimal_text(bytes[0] as nat)
    } else {
        byte_items_text(bytes.drop_last()) + ", "@ + decimal_text(bytes.last() as nat)
    }
}

/// The `Debug` text of a byte vector: `[1, 2, 3]`, or `[]` when empty.
pub open spec fn byte_list_text(bytes: Seq<u8>) -> Seq<char> {
    "["@ + byte_items_text(bytes) + "]"@
}

/// Appends the text of the digit `d`.
fn push_digit(out: &mut String, d: u16)
    requires
        d < 10,
    ensures
        final(out)@ == old(out)@ + digit_text(d as nat),
{
    if d == 0 {
        out.append("0");
    } else if d == 1 {
        out.append("1");
    } else if d == 2 {
        out.append("2");
    } else if d == 3 {
        out.append("3");
    } else if d == 4 {
        out.append("4");
    } else if d == 5 {
        out.append("5");
    } else if d == 6 {
        out.append("6");
    } else if d == 7 {
        out.append("7");
    } else if d == 8 {
        out.append("8");
    } else {
        out.append("9");
    }
}

/// Appends the decimal text of `n`.
pub fn push_decimal(out: &mut String, n: u16)
    ensures
        final(out)@ == old(out)@ + decimal_text(n as nat),
    decreases n,
{
    if n >= 10 {
        push_decimal(out, n / 10);
        push_digit(out, n % 10);
        assert(final(out)@ =~= old(out)@ + decimal_text(n as nat));
    } else {
        push_digit(out, n);
    }
}

/// Appends the `Debug` text of a byte list.
pub fn push_byte_list(out: &mut String, bytes: &[u8])
    ensures
        final(out)@ == old(out)@ + byte_list_text(bytes@),
{
    let ghost start = out@;
    out.append("[");
    let mut i: usize = 0;
    while i < bytes.len()
        invariant
            i <= bytes@.len(),
            out@ == start + "["@ + byte_items_text(bytes@.take(i as int)),
        decreases bytes@.len() - i,
    {
        if i > 0 {
            out.append(", ");
        }
        push_decimal(out, bytes[i] as u16);
        proof {
            let next = bytes@.take(i + 1);
            assert(next.drop_last() =~= bytes@.take(i as int));
            assert(next.last() == bytes@[i as int]);
            if i == 0 {
                assert(bytes@.take(0) =~= Seq::<u8>::empty());
            }
            assert(out@ =~= start + "["@ + byte_items_text(next));
        }
        i = i + 1;
    }
    out.append("]");
    assert(bytes@.take(bytes@.len() as int) =~= bytes@);
    assert(out@ =~= start + byte_list_text(bytes@));
}

/// Whether `c` is one of the ASCII digits `0` to `9`.
pub open spec fn is_ascii_digit(c: char) -> bool {
    '0' as int <= c as int <= '9' as int
}

/// The number that a string of ASCII digits denotes, read in base ten.
pub open spec fn numeral_value(text: Seq<char>) -> int
    decreases text.len(),
{
    if text.len() == 0 {
        0
    } else {
        numeral_value(text.drop_last()) * 10 + (text.last() as int - '0' as int)
    }
}

/// The text of digit `d` is the single character whose code is `'0' + d`.
pub proof fn lemma_digit_text_is_ascii_digit(d: nat)
    requires
        d < 10,
    ensures
        digit_text(d).len() == 1,
        digit_text(d)[0] as int == '0' as int + d,
{
    reveal_strlit("0");
    reveal_strlit("1");
    reveal_strlit("2");
    reveal_strlit("3");
    reveal_strlit("4");
    reveal_strlit("5");
    reveal_strlit("6");
    reveal_strlit("7");
    reveal_strlit("8");
    reveal_strlit("9");
}

/// The decimal text of `n` is a non-empty string of ASCII digits that reads
/// back, in base ten, as `n`, and starts with `0` only when `n` is zero (no
/// leading zeros).
pub proof fn lemma_decimal_text_reads_back(n: nat)
    ensures
        decimal_text(n).len() >= 1,
        decimal_text(n)[0] == '0' <==> n == 0,
        forall|i: int| 0 <= i < decimal_text(n).len() ==> is_ascii_digit(#[trigger] decimal_text(n)[i]),
        numeral_value(decimal_text(n)) == n,
    decreases n,
{
    if n < 10 {
        lemma_digit_text_is_ascii_digit(n);
        assert(decimal_text(n).drop_last() =~= Seq::<char>::empty());
        assert(numeral_value(Seq::<char>::empty()) == 0);
        assert(numeral_value(decimal_text(n)) == n);
    } else {
        lemma_decimal_text_reads_back(n / 10);
        lemma_digit_text_is_ascii_digit(n % 10);
        let head = decimal_text(n / 10);
        let text = decimal_text(n);
        assert(text =~= head + digit_text(n % 10));
        assert(text.drop_last() =~= head);
        assert(forall|i: int| 0 <= i < text.len() ==> is_ascii_digit(#[trigger] text[i])) by {
            assert forall|i: int| 0 <= i < text.len() implies is_ascii_digit(#[trigger] text[i]) by {
                if i < head.len() {
                    assert(text[i] == head[i]);
                }
            }
        }
        assert(text[0] == head[0]);
        assert(text.last() == digit_text(n % 10)[0]);
        assert(numeral_value(text) == numeral_value(head) * 10 + (n % 10));
        assert(n == (n / 10) * 10 + n % 10);
    }
}

/// Different numbers have different decimal texts.
pub proof fn lemma_decimal_text_injective(m: nat, n: nat)
    requires
        decimal_text(m) == decimal_text(n),
    ensures
        m == n,
{
    lemma_decimal_text_reads_back(m);
    lemma_decimal_text_reads_back(n);
}

/// Whether `c` may stand inside the items of a byte list: a digit, or one
/// of the two characters of the separator `", "`.
pub open spec fn is_item_char(c: char) -> bool {
    is_ascii_digit(c) || c == ',' || c == ' '
}

/// The shape of the items text: it ends with the decimal text of the last
/// byte; with two or more bytes, that text follows `", "`, which follows the
/// items of the other bytes; and every character is a digit, `,` or a space.
pub(crate) proof fn lemma_byte_items_shape(bytes: Seq<u8>)
    ensures
        forall|i: int|
            0 <= i < byte_items_text(bytes).len() ==> is_item_char(#[trigger] byte_items_text(bytes)[i]),
        bytes.len() == 0 ==> byte_items_text(bytes).len() == 0,
        bytes.len() >= 1 ==> ({
            let t = byte_items_text(bytes);
            let d = decimal_text(bytes.last() as nat);
            &&& d.len() <= t.len()
            &&& t.subrange(t.len() - d.len(), t.len() as int) == d
            &&& bytes.len() == 1 ==> t.len() == d.len()
            &&& bytes.len() >= 2 ==> {
                &&& t.len() >= d.len() + 2
                &&& t[t.len() - d.len() - 1] == ' '
                &&& t.subrange(0, t.len() - d.len() - 2) == byte_items_text(bytes.drop_last())
            }
        }),
    decreases bytes.len(),
{
    reveal_strlit(", ");
    if bytes.len() == 0 {
    } else if bytes.len() == 1 {
        lemma_decimal_text_reads_back(bytes[0] as nat);
        let t = byte_items_text(bytes);
        assert(t.subrange(0, t.len() as int) =~= t);
    } else {
        let rest = bytes.drop_last();
        lemma_byte_items_shape(rest);
        lemma_decimal_text_reads_back(bytes.last() as nat);
        let head = byte_items_text(rest);
        let d = decimal_text(bytes.last() as nat);
        let t = byte_items_text(bytes);
        assert(t =~= head + ", "@ + d);
        assert(t.subrange(t.len() - d.len(), t.len() as int) =~= d);
        assert(t.subrange(0, t.len() - d.len() - 2) =~= head);
        assert forall|i: int| 0 <= i < t.len() implies is_item_char(#[trigger] t[i]) by {
            if i < head.len() {
                assert(t[i] == head[i]);
            } else if i < head.len() + 2 {
            } else {
                assert(t[i] == d[i - head.len() - 2]);
            }
        }
    }
}

/// Different byte sequences have different items texts.
pub(crate) proof fn lemma_byte_items_injective(a: Seq<u8>, b: Seq<u8>)
    requires
        byte_items_text(a) == byte_items_text(b),
    ensures
        a == b,
    decreases a.len(),
{
    lemma_byte_items_shape(a);
    lemma_byte_items_shape(b);
    let t = byte_items_text(a);
    if a.len() == 0 || b.len() == 0 {
        if a.len() != 0 {
            lemma_decimal_text_reads_back(a.last() as nat);
        }
        if b.len() != 0 {
            lemma_decimal_text_reads_back(b.last() as nat);
        }
        assert(a =~= b);
    } else {
        let da = decimal_text(a.last() as nat);
        let db = decimal_text(b.last() as nat);
        lemma_decimal_text_reads_back(a.last() as nat);
        lemma_decimal_text_reads_back(b.last() as nat);
        if da.len() < db.len() {
            let p = t.len() - da.len() - 1;
            assert(t[p] == db[p - (t.len() - db.len())]);
            assert(is_ascii_digit(db[p - (t.len() - db.len())]));
            assert(false);
        }
        if db.len() < da.len() {
            let p = t.len() - db.len() - 1;
            assert(t[p] == da[p - (t.len() - da.len())]);
            assert(is_ascii_digit(da[p - (t.len() - da.len())]));
            assert(false);
        }
        assert(da == db);
        lemma_decimal_text_injective(a.last() as nat, b.last() as nat);
        if a.len() == 1 || b.len() == 1 {
            assert(a.len() == 1 && b.len() == 1);
            assert(a =~= b);
        } else {
            lemma_byte_items_injective(a.drop_last(), b.drop_last());
            assert(a =~= a.drop_last().push(a.last()));
            assert(b =~= b.drop_last().push(b.last()));
        }
    }
}

/// The byte-list text holds one decimal item per byte, in order: different
/// byte sequences, of any lengths, have different texts.
pub proof fn lemma_byte_list_text_injective(a: Seq<u8>, b: Seq<u8>)
    requires
        byte_list_text(a) == byte_list_text(b),
    ensures
        a == b,
{
    let ta = byte_items_text(a);
    let tb = byte_items_text(b);
    reveal_strlit("[");
    reveal_strlit("]");
    assert(byte_list_text(a).subrange(1, byte_list_text(a).len() - 1) =~= ta);
    assert(byte_list_text(b).subrange(1, byte_list_text(b).len() - 1) =~= tb);
    lemma_byte_items_injective(a, b);
}

/// The byte list of no bytes is `[]`.
pub proof fn lemma_byte_list_text_empty()
    ensures
        byte_list_text(Seq::<u8>::empty()) == "[]"@,
{
    reveal_strlit("[");
    reveal_strlit("]");
    reveal_strlit("[]");
    assert(byte_list_text(Seq::<u8>::empty()) =~= "[]"@);
}

/// Appending a byte to a list appends its decimal item before the closing
/// `]`, after a `", "` separator unless the list was empty.
pub proof fn lemma_byte_list_text_push(bytes: Seq<u8>, b: u8)
    ensures
        byte_list_text(bytes.push(b)) == byte_list_text(bytes).drop_last() + (if bytes.len() == 0 {
            Seq::<char>::empty()
        } else {
            ", "@
        }) + decimal_text(b as nat) + "]"@,
{
    reveal_strlit("]");
    let longer = bytes.push(b);
    assert(longer.drop_last() =~= bytes);
    if bytes.len() == 0 {
        assert(byte_items_text(bytes) =~= Seq::<char>::empty());
    }
    assert(byte_list_text(bytes).drop_last() =~= "["@ + byte_items_text(bytes));
    assert(byte_list_text(longer) =~= byte_list_text(bytes).drop_last() + (if bytes.len() == 0 {
        Seq::<char>::empty()
    } else {
        ", "@
    }) + decimal_text(b as nat) + "]"@);
}

} // verus!

//! Numbers and lists as text, for the report on a decoded container.

use vstd::prelude::*;
use vstd::string::StringExecFns;

verus! {

/// `String::push` of std appends the character to the end of the string.
pub assume_specification[ String::push ](s: &mut String, c: char)
    ensures
        final(s)@ == old(s)@.push(c),
;

/// What `{:?}` writes for a string: the string between double quotes, with
/// the characters that cannot stand there as they are written as escapes.
pub uninterp spec fn debug_quoted(s: Seq<char>) -> Seq<char>;

/// Formats `s` with `{:?}`, which std implements for `str`. The result
/// depends on the characters of `s` alone; the contract gives it a name and
/// says nothing more of it.
#[verifier::external_body]
pub(crate) fn debug_quoted_string(s: &str) -> (quoted: String)
    ensures
        quoted@ == debug_quoted(s@),
{
    format!("{:?}", s)
}

/// The character for a digit below 16: `0` to `9`, then `a` to `f`.
pub open spec fn digit_char(d: nat) -> char {
    if d < 10 {
        (0x30 + d) as char
    } else {
        (0x57 + d) as char
    }
}

/// The digits of `n` in a base of 2 or more, most significant first, with
/// zeros in front where there would be fewer than `width`.
pub open spec fn digits(n: nat, base: nat, width: nat) -> Seq<char>
    decreases n + width,
    when base >= 2
    via digits_decreases
{
    if n < base && width <= 1 {
        seq![digit_char(n)]
    } else {
        digits(
            n / base,
            base,
            if width == 0 {
                0
            } else {
                (width - 1) as nat
            },
        ).push(digit_char(n % base))
    }
}

#[via_fn]
proof fn digits_decreases(n: nat, base: nat, width: nat) {
    lemma_quotient_is_smaller(n, base);
}

/// Dividing by a base of 2 or more never gives more, and gives less once
/// the number has reached the base.
pub proof fn lemma_quotient_is_smaller(n: nat, base: nat)
    requires
        base >= 2,
    ensures
        n / base <= n,
        n >= base ==> n / base < n,
{
    assert(n / base <= n) by (nonlinear_arith)
        requires
            base >= 2,
    ;
    if n >= base {
        assert(n / base < n) by (nonlinear_arith)
            requires
                n >= base,
                base >= 2,
        ;
    }
}

/// `n` in decimal.
pub open spec fn decimal(n: nat) -> Seq<char> {
    digits(n, 10, 1)
}

/// `n` in hexadecimal, in lower case and without a prefix.
pub open spec fn lower_hex(n: nat) -> Seq<char> {
    digits(n, 16, 1)
}

/// `n` in binary after the prefix `0b`, with at least 16 binary digits.
pub open spec fn prefixed_binary(n: nat) -> Seq<char> {
    "0b"@ + digits(n, 2, 16)
}

/// The items with a comma and a space between each two.
pub open spec fn joined(items: Seq<Seq<char>>) -> Seq<char>
    decreases items.len(),
{
    if items.len() == 0 {
        Seq::empty()
    } else if items.len() == 1 {
        items[0]
    } else {
        joined(items.drop_last()) + ", "@ + items.last()
    }
}

/// The items between square brackets, separated by a comma and a space.
pub open spec fn bracketed(items: Seq<Seq<char>>) -> Seq<char> {
    "["@ + joined(items) + "]"@
}

/// Each byte in hexadecimal.
pub open spec fn hex_items(data: Seq<u8>) -> Seq<Seq<char>> {
    Seq::new(data.len(), |i: int| lower_hex(data[i] as nat))
}

/// Writing one more item of a list: a separator unless it is the first,
/// then the item.
pub proof fn lemma_joined_next(items: Seq<Seq<char>>, i: int)
    requires
        0 <= i < items.len(),
    ensures
        joined(items.take(i + 1)) == if i == 0 {
            items[i]
        } else {
            joined(items.take(i)) + ", "@ + items[i]
        },
{
    let next = items.take(i + 1);
    assert(next.last() == items[i]);
    assert(next.drop_last() =~= items.take(i));
    if i == 0 {
        assert(next[0] == items[0]);
    }
}

fn digit(d: u8) -> (c: char)
    requires
        d < 16,
    ensures
        c == digit_char(d as nat),
{
    if d < 10 {
        (0x30u8 + d) as char
    } else {
        (0x57u8 + d) as char
    }
}

/// Appends the digits of `n` in the given base, at least `width` of them.
pub(crate) fn push_digits(out: &mut String, n: u128, base: u8, width: u8)
    requires
        2 <= base <= 16,
    ensures
        final(out)@ == old(out)@ + digits(n as nat, base as nat, width as nat),
    decreases n + width,
{
    let ghost before = out@;
    let last = (n % (base as u128)) as u8;
    if n >= base as u128 || width > 1 {
        let fewer: u8 = if width == 0 {
            0
        } else {
            width - 1
        };
        proof {
            lemma_quotient_is_smaller(n as nat, base as nat);
        }
        push_digits(out, n / (base as u128), base, fewer);
        out.push(digit(last));
        proof {
            let front = digits((n / (base as u128)) as nat, base as nat, fewer as nat);
            assert(digits(n as nat, base as nat, width as nat) == front.push(
                digit_char(last as nat),
            ));
            assert(out@ =~= before + front.push(digit_char(last as nat)));
        }
    } else {
        out.push(digit(last));
        proof {
            assert(last == n) by (nonlinear_arith)
                requires
                    last == n % (base as u128),
                    n < base,
            ;
            assert(out@ =~= before + seq![digit_char(n as nat)]);
        }
    }
}

/// Appends the bytes in hexadecimal, as a list in square brackets.
pub(crate) fn push_hex_list(out: &mut String, data: &Vec<u8>)
    ensures
        final(out)@ == old(out)@ + bracketed(hex_items(data@)),
{
    let ghost before = out@;
    let ghost items = hex_items(data@);
    out.append("[");
    let mut i: usize = 0;
    while i < data.len()
        invariant
            i <= data.len(),
            items == hex_items(data@),
            out@ == before + "["@ + joined(items.take(i as int)),
        decreases data.len() - i,
    {
        if i > 0 {
            out.append(", ");
        }
        push_digits(out, data[i] as u128, 16, 1);
        proof {
            lemma_joined_next(items, i as int);
            assert(out@ =~= before + "["@ + joined(items.take(i + 1)));
        }
        i += 1;
    }
    out.append("]");
    proof {
        assert(items.take(i as int) =~= items);
        assert(out@ =~= before + bracketed(items));
    }
}

} // verus!

//! Decisions taken while loading weights: the file format, the size report.
use crate::text::push_char;
use vstd::prelude::*;
use vstd::string::*;

verus! {

/// The container format of a weights file.
#[derive(Debug, Clone, Copy, PartialEq, Eq, Structural)]
pub enum WeightsFormat {
    /// GGUF, with its own metadata.
    Gguf,
    /// Legacy GGML.
    Ggml,
}

/// The format of a weights file from its extension: `gguf` is GGUF, anything
/// else (`ggml`, `bin`, another or none) is read as GGML.
pub fn weights_format(extension: Option<&str>) -> (r: WeightsFormat)
    ensures
        r == (if extension matches Some(e) && e@ == "gguf"@ {
            WeightsFormat::Gguf
        } else {
            WeightsFormat::Ggml
        }),
{
    match extension {
        Some(e) => {
            if crate::text::str_equal(e, "gguf") {
                WeightsFormat::Gguf
            } else {
                WeightsFormat::Ggml
            }
        },
        None => WeightsFormat::Ggml,
    }
}

/// Bytes taken by tensors given as (element count, type size, block size): each
/// takes `count * type_size / block_size` bytes.
pub open spec fn tensor_bytes(infos: Seq<(usize, usize, usize)>) -> nat
    decreases infos.len(),
{
    if infos.len() == 0 {
        0
    } else {
        let (n, t, b) = infos.last();
        tensor_bytes(infos.drop_last()) + ((n * t) / (b as int)) as nat
    }
}

/// The total size of the tensors, or `None` where it does not fit a `usize`. Every
/// block size must be positive.
pub fn total_size_in_bytes(infos: &Vec<(usize, usize, usize)>) -> (r: Option<usize>)
    requires
        forall|i: int| 0 <= i < infos@.len() ==> #[trigger] infos@[i].2 > 0,
    ensures
        r matches Some(s) ==> s == tensor_bytes(infos@),
        r is None ==> tensor_bytes(infos@) > usize::MAX || exists|i: int|
            0 <= i < infos@.len() && #[trigger] infos@[i].0 * infos@[i].1 > usize::MAX,
{
    let mut total: usize = 0;
    let mut i: usize = 0;
    while i < infos.len()
        invariant
            i <= infos@.len(),
            total == tensor_bytes(infos@.take(i as int)),
            forall|j: int| 0 <= j < infos@.len() ==> #[trigger] infos@[j].2 > 0,
        decreases infos.len() - i,
    {
        let (n, t, b) = infos[i];
        assert(infos@.take(i + 1).drop_last() =~= infos@.take(i as int));
        let bytes = match n.checked_mul(t) {
            Some(p) => p / b,
            None => return None,
        };
        total = match total.checked_add(bytes) {
            Some(s) => s,
            None => {
                proof {
                    lemma_tensor_bytes_grows(infos@, i as int + 1);
                }
                return None;
            },
        };
        i = i + 1;
    }
    assert(infos@.take(infos@.len() as int) =~= infos@);
    Some(total)
}

/// The size of a head of the tensors is at most the size of them all.
proof fn lemma_tensor_bytes_grows(infos: Seq<(usize, usize, usize)>, k: int)
    requires
        0 <= k <= infos.len(),
    ensures
        tensor_bytes(infos.take(k)) <= tensor_bytes(infos),
    decreases infos.len(),
{
    if k < infos.len() {
        assert(infos.drop_last().take(k) =~= infos.take(k));
        lemma_tensor_bytes_grows(infos.drop_last(), k);
    } else {
        assert(infos.take(k) =~= infos);
    }
}

/// The decimal digits.
pub open spec fn digits() -> Seq<char> {
    seq!['0', '1', '2', '3', '4', '5', '6', '7', '8', '9']
}

/// The decimal numeral of `n`, without leading zeros.
pub open spec fn decimal(n: nat) -> Seq<char>
    decreases n,
{
    if n < 10 {
        seq![digits()[n as int]]
    } else {
        decimal(n / 10).push(digits()[(n % 10) as int])
    }
}

/// Appends the decimal numeral of `n`.
fn push_decimal(s: &mut String, n: u64)
    ensures
        final(s)@ == old(s)@ + decimal(n as nat),
    decreases n,
{
    let digit_chars = ['0', '1', '2', '3', '4', '5', '6', '7', '8', '9'];
    assert(digit_chars@ == digits());
    if n < 10 {
        push_char(s, digit_chars[n as usize]);
    } else {
        push_decimal(s, n / 10);
        push_char(s, digit_chars[(n % 10) as usize]);
    }
}

/// `value / unit` rounded to the nearest hundredth (halves up), written with two
/// decimals.
pub open spec fn scaled(value: nat, unit: nat) -> Seq<char>
    recommends
        unit > 0,
{
    let h = (value * 100 + unit / 2) / unit;
    decimal(h / 100) + seq!['.', digits()[((h % 100) / 10) as int], digits()[(h % 10) as int]]
}

/// A byte count for people: plain bytes below a thousand, else kilobytes,
/// megabytes or gigabytes (powers of 1000) with two decimals.
pub open spec fn spec_format_size(n: nat) -> Seq<char> {
    if n < 1000 {
        decimal(n) + "B"@
    } else if n < 1_000_000 {
        scaled(n, 1000) + "KB"@
    } else if n < 1_000_000_000 {
        scaled(n, 1_000_000) + "MB"@
    } else {
        scaled(n, 1_000_000_000) + "GB"@
    }
}

/// Appends `value / unit` rounded to hundredths, with two decimals.
fn push_scaled(s: &mut String, value: u64, unit: u64)
    requires
        unit == 1000 || unit == 1_000_000 || unit == 1_000_000_000,
    ensures
        final(s)@ == old(s)@ + scaled(value as nat, unit as nat),
{
    let q = value / unit;
    let r = value % unit;
    let ghost (v, u, qi, ri) = (value as int, unit as int, q as int, r as int);
    assert(ri * 100 + u / 2 < 100 * u + u) by (nonlinear_arith)
        requires
            0 <= ri < u,
            u >= 1000,
    ;
    let frac = (r * 100 + unit / 2) / unit;
    let ghost fi = frac as int;
    assert(fi <= 100) by (nonlinear_arith)
        requires
            0 <= ri < u,
            fi == (ri * 100 + u / 2) / u,
            u >= 1000,
    ;
    assert(qi * 100 <= v * 100) by (nonlinear_arith)
        requires
            qi == v / u,
            u > 0,
            v >= 0,
    ;
    let h = q * 100 + frac;
    assert(h as int == (v * 100 + u / 2) / u) by (nonlinear_arith)
        requires
            qi == v / u,
            ri == v % u,
            v == qi * u + ri,
            fi == (ri * 100 + u / 2) / u,
            h as int == qi * 100 + fi,
            u > 0,
    {
        assert(v * 100 + u / 2 == (qi * 100) * u + (ri * 100 + u / 2));
    }
    let digit_chars = ['0', '1', '2', '3', '4', '5', '6', '7', '8', '9'];
    assert(digit_chars@ == digits());
    push_decimal(s, h / 100);
    push_char(s, '.');
    push_char(s, digit_chars[((h % 100) / 10) as usize]);
    push_char(s, digit_chars[(h % 10) as usize]);
}

/// A byte count for people, as `spec_format_size` says.
pub fn format_size(size_in_bytes: usize) -> (r: String)
    ensures
        r@ == spec_format_size(size_in_bytes as nat),
{
    let n = size_in_bytes as u64;
    let mut s = String::new();
    if n < 1000 {
        push_decimal(&mut s, n);
        s.append("B");
    } else if n < 1_000_000 {
        push_scaled(&mut s, n, 1000);
        s.append("KB");
    } else if n < 1_000_000_000 {
        push_scaled(&mut s, n, 1_000_000);
        s.append("MB");
    } else {
        push_scaled(&mut s, n, 1_000_000_000);
        s.append("GB");
    }
    s
}

} // verus!

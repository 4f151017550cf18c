use vstd::prelude::*;

use vstd::arithmetic::div_mod::lemma_div_is_ordered;
use vstd::arithmetic::div_mod::lemma_div_multiples_vanish;
use vstd::arithmetic::mul::lemma_mul_inequality;

verus! {

/// The character for one decimal digit.
pub open spec fn spec_digit(d: int) -> char {
    if d == 0 {
        '0'
    } else if d == 1 {
        '1'
    } else if d == 2 {
        '2'
    } else if d == 3 {
        '3'
    } else if d == 4 {
        '4'
    } else if d == 5 {
        '5'
    } else if d == 6 {
        '6'
    } else if d == 7 {
        '7'
    } else if d == 8 {
        '8'
    } else {
        '9'
    }
}

/// The decimal rendering of a non-negative number, most significant
/// digit first.
pub open spec fn spec_digits(n: int) -> Seq<char>
    recommends
        n >= 0,
    decreases n,
{
    if n < 10 {
        seq![spec_digit(n)]
    } else {
        spec_digits(n / 10) + seq![spec_digit(n % 10)]
    }
}

/// The percentage right-padded to three columns, as the bar renders it.
pub open spec fn spec_padded_percent(p: int) -> Seq<char> {
    if p < 10 {
        "  "@ + spec_digits(p)
    } else if p < 100 {
        " "@ + spec_digits(p)
    } else {
        spec_digits(p)
    }
}

/// Truncated percentage of `read` against `total`.
pub open spec fn spec_percent(total: int, read: int) -> int {
    read * 100 / total
}

/// How many of the bar's 75 columns are filled at `read` of `total`.
pub open spec fn spec_filled(total: int, read: int) -> int {
    read * 75 / total
}

/// The bar's filled region: 75 columns of `=`, cursor `>` while
/// incomplete and omitted at completion, space-padded to full width.
pub open spec fn spec_fill(total: int, read: int) -> Seq<char> {
    if read == total {
        Seq::new(75, |i: int| '=')
    } else {
        Seq::new(spec_filled(total, read) as nat, |i: int| '=') + seq!['>'] + Seq::new(
            (74 - spec_filled(total, read)) as nat,
            |i: int| ' ',
        )
    }
}

/// The whole 75-column progress bar: percentage, filled region, total
/// size in kilobytes.
pub open spec fn spec_bar(total: int, read: int) -> Seq<char> {
    spec_padded_percent(spec_percent(total, read)) + "% ["@ + spec_fill(total, read) + "] "@
        + spec_digits(total / 1000) + "kB"@
}

/// What erases the previous render: one backspace per previously written
/// column, then a carriage return.
pub open spec fn spec_erase(clear_size: int) -> Seq<char> {
    Seq::new(clear_size as nat, |i: int| '\u{8}') + "\r"@
}

/// One render of the progress indicator: `erase` wipes the previous
/// render, `bar` is the new line, written with no trailing newline so the
/// bar animates in place.
pub struct ProgressFrame {
    pub erase: String,
    pub bar: String,
}

fn digit_str(d: u64) -> (r: &'static str)
    requires
        d < 10,
    ensures
        r@ == seq![spec_digit(d as int)],
{
    proof {
        reveal_strlit("0");
        reveal_strlit("1");
        reveal_strlit("2");
        reveal_strlit("3");
        reveal_strlit("4");
        reveal_strlit("5");
        reveal_strlit("6");
        reveal_strlit("7");
        reveal_strlit("8");
        reveal_strlit("9");
    }
    let r = if d == 0 {
        "0"
    } else if d == 1 {
        "1"
    } else if d == 2 {
        "2"
    } else if d == 3 {
        "3"
    } else if d == 4 {
        "4"
    } else if d == 5 {
        "5"
    } else if d == 6 {
        "6"
    } else if d == 7 {
        "7"
    } else if d == 8 {
        "8"
    } else {
        "9"
    };
    assert(r@ =~= seq![spec_digit(d as int)]);
    r
}

/// The decimal rendering of `n`.
fn u64_digits(n: u64) -> (r: String)
    ensures
        r@ == spec_digits(n as int),
    decreases n,
{
    if n < 10 {
        String::from_str(digit_str(n))
    } else {
        let mut s = u64_digits(n / 10);
        s.append(digit_str(n % 10));
        s
    }
}

/// `n` copies of the single character in `piece`.
fn repeat_str(piece: &str, n: usize) -> (r: String)
    requires
        piece@.len() == 1,
    ensures
        r@ == Seq::new(n as nat, |i: int| piece@[0]),
{
    let mut s = String::new();
    let mut i: usize = 0;
    while i < n
        invariant
            0 <= i <= n,
            piece@.len() == 1,
            s@ == Seq::new(i as nat, |j: int| piece@[0]),
        decreases n - i,
    {
        s.append(piece);
        i = i + 1;
        proof {
            assert(s@ =~= Seq::new(i as nat, |j: int| piece@[0]));
        }
    }
    s
}

/// Render the fixed-width download progress indicator for `bytes_read` of
/// `total_size` declared bytes, together with what erases the previous
/// render of `clear_size` columns.
pub fn display_dl_progress(total_size: u64, bytes_read: u64, clear_size: usize) -> (f:
    ProgressFrame)
    requires
        total_size > 0,
        bytes_read <= total_size,
    ensures
        f.erase@ == spec_erase(clear_size as int),
        f.bar@ == spec_bar(total_size as int, bytes_read as int),
{
    proof {
        lemma_mul_inequality(bytes_read as int, total_size as int, 100);
        lemma_div_is_ordered(
            bytes_read as int * 100,
            total_size as int * 100,
            total_size as int,
        );
        lemma_div_multiples_vanish(100, total_size as int);
        lemma_mul_inequality(bytes_read as int, total_size as int, 75);
        lemma_div_is_ordered(bytes_read as int * 75, total_size as int * 75, total_size as int);
        lemma_div_multiples_vanish(75, total_size as int);
    }
    let percent: u64 = ((bytes_read as u128) * 100 / (total_size as u128)) as u64;
    let n_complete: u64 = ((bytes_read as u128) * 75 / (total_size as u128)) as u64;
    assert(percent <= 100);
    assert(n_complete <= 75);

    proof {
        reveal_strlit("\u{8}");
        reveal_strlit("\r");
    }
    let mut erase = repeat_str("\u{8}", clear_size);
    erase.append("\r");
    assert(erase@ =~= spec_erase(clear_size as int));

    let mut bar = if percent < 10 {
        String::from_str("  ")
    } else if percent < 100 {
        String::from_str(" ")
    } else {
        String::new()
    };
    bar.append(u64_digits(percent).as_str());
    bar.append("% [");

    proof {
        reveal_strlit("=");
        reveal_strlit(">");
        reveal_strlit(" ");
    }
    if bytes_read == total_size {
        assert(spec_percent(total_size as int, bytes_read as int) == 100);
        let fill = repeat_str("=", 75);
        bar.append(fill.as_str());
    } else {
        assert(bytes_read as int * 75 / total_size as int <= 74) by (nonlinear_arith)
            requires
                bytes_read < total_size,
                total_size > 0,
        ;
        let fill = repeat_str("=", n_complete as usize);
        bar.append(fill.as_str());
        bar.append(">");
        let pad = repeat_str(" ", (74 - n_complete) as usize);
        bar.append(pad.as_str());
    }
    bar.append("] ");
    bar.append(u64_digits(total_size / 1000).as_str());
    bar.append("kB");
    assert(bar@ =~= spec_bar(total_size as int, bytes_read as int));
    ProgressFrame { erase, bar }
}

/// Transient counters that drive the progress indicator across one
/// download: declared total, bytes seen so far, and the width of the
/// previous render, which the next render must erase. When the resource
/// declares no length (a zero total), progress display is force-disabled:
/// there is nothing meaningful to render a percentage against.
pub struct DownloadState {
    pub total_size: u64,
    pub bytes_read: u64,
    pub clear_size: usize,
    pub show_progress: bool,
}

impl DownloadState {
    /// Start tracking a download of `total_size` declared bytes; progress
    /// display stays off when the caller asked for none or the declared
    /// length is absent or zero.
    pub fn new(total_size: u64, show_progress: bool) -> (r: DownloadState)
        ensures
            r.total_size == total_size,
            r.bytes_read == 0,
            r.clear_size == 0,
            r.show_progress == (show_progress && total_size != 0),
    {
        DownloadState {
            total_size,
            bytes_read: 0,
            clear_size: 0,
            show_progress: show_progress && total_size != 0,
        }
    }

    /// The render due before the next chunk is written: a frame exactly
    /// when progress is shown and the counters are in range, remembering
    /// the new width for the erase of the following render.
    pub fn render(&mut self) -> (frame: Option<ProgressFrame>)
        ensures
            final(self).total_size == old(self).total_size,
            final(self).bytes_read == old(self).bytes_read,
            final(self).show_progress == old(self).show_progress,
            (old(self).show_progress && old(self).total_size > 0 && old(self).bytes_read <= old(
                self,
            ).total_size) ==> (frame matches Some(f) && f.erase@ == spec_erase(
                old(self).clear_size as int,
            ) && f.bar@ == spec_bar(old(self).total_size as int, old(self).bytes_read as int)
                && final(self).clear_size == f.bar@.len()),
            !(old(self).show_progress && old(self).total_size > 0 && old(self).bytes_read <= old(
                self,
            ).total_size) ==> (frame is None && final(self).clear_size == old(self).clear_size),
    {
        if self.show_progress && self.total_size > 0 && self.bytes_read <= self.total_size {
            let f = display_dl_progress(self.total_size, self.bytes_read, self.clear_size);
            self.clear_size = f.bar.as_str().unicode_len();
            Some(f)
        } else {
            None
        }
    }

    /// Account for one chunk of `n` bytes written to the destination.
    pub fn advance(&mut self, n: usize)
        requires
            old(self).bytes_read + n <= u64::MAX,
        ensures
            final(self).bytes_read == old(self).bytes_read + n,
            final(self).total_size == old(self).total_size,
            final(self).clear_size == old(self).clear_size,
            final(self).show_progress == old(self).show_progress,
    {
        self.bytes_read = self.bytes_read + (n as u64);
    }
}

} // verus!

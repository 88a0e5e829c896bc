//! Receiver status shown in the console prompt.
//!
//! The prompt is rendered into a fixed buffer of `PROMPT_CAPACITY` bytes. Its
//! parts are written in order; the first part that does not fit, and all
//! after it, are left out, so the buffer never overflows.

use crate::colors::{BOLD_BLUE, BOLD_GREEN, BOLD_YELLOW, RESET};
use crate::events::RadioMode;
use crate::text::{decimal, decimal_string, digit_char, digit_str};
use vstd::prelude::*;
use vstd::string::*;

verus! {

/// Bytes the rendered prompt may take.
pub const PROMPT_CAPACITY: usize = 64;

#[verifier::external_type_specification]
#[verifier::external_body]
pub struct ExHeaplessString<const N: usize>(heapless::String<N>);

/// The characters held by a prompt buffer.
pub uninterp spec fn buffer_chars(s: heapless::String<64>) -> Seq<char>;

/// Every character is ASCII, so it takes one byte.
pub open spec fn ascii_text(s: Seq<char>) -> bool {
    forall|i: int| 0 <= i < s.len() ==> (#[trigger] s[i] as u32) < 128
}

/// Relies on `heapless::String::new`: a new string is empty.
#[verifier::external_body]
fn buffer_new() -> (r: heapless::String<64>)
    ensures
        buffer_chars(r) == Seq::<char>::empty(),
{
    heapless::String::new()
}

/// Relies on `heapless::String::clear`: the string becomes empty.
#[verifier::external_body]
fn buffer_clear(s: &mut heapless::String<64>)
    ensures
        buffer_chars(*final(s)) == Seq::<char>::empty(),
{
    s.clear()
}

/// Relies on `heapless::String::push_str`: the text is appended when its
/// bytes fit in the capacity, and nothing is written otherwise. For ASCII
/// text bytes and characters count alike.
#[verifier::external_body]
fn buffer_push_str(s: &mut heapless::String<64>, t: &str) -> (r: bool)
    requires
        ascii_text(buffer_chars(*old(s))),
        ascii_text(t@),
    ensures
        r == (buffer_chars(*old(s)).len() + t@.len() <= PROMPT_CAPACITY),
        r ==> buffer_chars(*final(s)) == buffer_chars(*old(s)) + t@,
        !r ==> buffer_chars(*final(s)) == buffer_chars(*old(s)),
{
    s.push_str(t).is_ok()
}

/// Relies on `heapless::String::as_str`: the text held.
#[verifier::external_body]
fn buffer_as_str(s: &heapless::String<64>) -> (r: &str)
    ensures
        r@ == buffer_chars(*s),
{
    s.as_str()
}

/// Name of a mode as shown in the prompt.
pub open spec fn mode_name(m: RadioMode) -> Seq<char> {
    match m {
        RadioMode::FM => "FM"@,
        RadioMode::AM => "AM"@,
        RadioMode::Off => "Off"@,
    }
}

/// A frequency in tenths of MHz, rounded half up.
pub open spec fn tenths_of_mhz(khz: u32) -> nat {
    (khz / 100) as nat + if khz % 100 >= 50 { 1nat } else { 0nat }
}

/// A frequency in MHz with one digit after the point.
pub open spec fn mhz_text(khz: u32) -> Seq<char> {
    let t = tenths_of_mhz(khz);
    decimal(t / 10) + seq!['.'] + seq![digit_char(t % 10)]
}

/// The parts of the prompt, in the order they are written.
pub open spec fn prompt_parts(m: RadioMode, khz: u32) -> Seq<Seq<char>> {
    seq![
        BOLD_GREEN@,
        "radio-cli "@,
        BOLD_BLUE@,
        mode_name(m),
        " "@,
        BOLD_YELLOW@,
        mhz_text(khz),
        " MHz"@,
        BOLD_GREEN@,
        ")>"@,
        RESET@,
        " "@,
    ]
}

/// Parts written in order into a buffer of `PROMPT_CAPACITY`: the text held
/// and whether every part fitted.
pub open spec fn fill(parts: Seq<Seq<char>>) -> (Seq<char>, bool)
    decreases parts.len(),
{
    if parts.len() == 0 {
        (Seq::<char>::empty(), true)
    } else {
        let (held, all_fit) = fill(parts.drop_last());
        if all_fit && held.len() + parts.last().len() <= PROMPT_CAPACITY {
            (held + parts.last(), true)
        } else {
            (held, false)
        }
    }
}

/// The prompt for a mode and a frequency.
pub open spec fn prompt_text(m: RadioMode, khz: u32) -> Seq<char> {
    fill(prompt_parts(m, khz)).0
}

proof fn lemma_decimal_ascii(n: nat)
    ensures
        ascii_text(decimal(n)),
    decreases n,
{
    if n >= 10 {
        lemma_decimal_ascii(n / 10);
    }
}

proof fn lemma_fill_bounds(parts: Seq<Seq<char>>)
    requires
        forall|i: int| 0 <= i < parts.len() ==> ascii_text(#[trigger] parts[i]),
    ensures
        fill(parts).0.len() <= PROMPT_CAPACITY,
        ascii_text(fill(parts).0),
    decreases parts.len(),
{
    if parts.len() > 0 {
        let prev = parts.drop_last();
        assert forall|i: int| 0 <= i < prev.len() implies ascii_text(#[trigger] prev[i]) by {
            assert(prev[i] == parts[i]);
        }
        lemma_fill_bounds(prev);
        let held = fill(prev).0;
        let last = parts.last();
        assert(ascii_text(last));
        assert forall|i: int| 0 <= i < (held + last).len() implies (#[trigger] (held + last)[i] as u32) < 128 by {
            if i >= held.len() {
                assert((held + last)[i] == last[i - held.len()]);
            }
        }
    }
}

/// Text of a frequency in MHz.
pub fn mhz_string(khz: u32) -> (r: String)
    ensures
        r@ == mhz_text(khz),
{
    let t: u32 = khz / 100 + if khz % 100 >= 50 { 1 } else { 0 };
    let mut s = decimal_string((t / 10) as u64);
    proof {
        reveal_strlit(".");
    }
    s.append(".");
    s.append(digit_str(t % 10));
    s
}

fn mode_str(m: RadioMode) -> (r: &'static str)
    ensures
        r@ == mode_name(m),
{
    match m {
        RadioMode::FM => "FM",
        RadioMode::AM => "AM",
        RadioMode::Off => "Off",
    }
}

/// Last known receiver status, and the buffer its prompt is rendered into.
pub struct PromptStatus {
    frequency_khz: u32,
    mode: RadioMode,
    prompt: heapless::String<64>,
}

impl PromptStatus {
    pub closed spec fn mode(&self) -> RadioMode {
        self.mode
    }

    /// The displayed frequency, in kHz.
    pub closed spec fn frequency(&self) -> u32 {
        self.frequency_khz
    }

    /// The text last rendered.
    pub closed spec fn rendered(&self) -> Seq<char> {
        buffer_chars(self.prompt)
    }

    pub closed spec fn wf(&self) -> bool {
        &&& ascii_text(buffer_chars(self.prompt))
        &&& buffer_chars(self.prompt).len() <= PROMPT_CAPACITY
    }

    /// FM at 0 MHz, nothing rendered yet.
    pub fn new() -> (r: PromptStatus)
        ensures
            r.wf(),
            r.mode() == RadioMode::FM,
            r.frequency() == 0,
            r.rendered() == Seq::<char>::empty(),
    {
        PromptStatus { frequency_khz: 0, mode: RadioMode::FM, prompt: buffer_new() }
    }

    pub fn set_mode(&mut self, mode: RadioMode)
        requires
            old(self).wf(),
        ensures
            final(self).wf(),
            final(self).mode() == mode,
            final(self).frequency() == old(self).frequency(),
            final(self).rendered() == old(self).rendered(),
    {
        self.mode = mode;
    }

    /// Set the displayed frequency, in kHz.
    pub fn set_frequency(&mut self, frequency_khz: u32)
        requires
            old(self).wf(),
        ensures
            final(self).wf(),
            final(self).mode() == old(self).mode(),
            final(self).frequency() == frequency_khz,
            final(self).rendered() == old(self).rendered(),
    {
        self.frequency_khz = frequency_khz;
    }

    /// The text last rendered.
    pub fn get_prompt_str(&self) -> (r: &str)
        ensures
            r@ == self.rendered(),
    {
        buffer_as_str(&self.prompt)
    }

    /// Render the prompt afresh from the status and return it. The buffer is
    /// cleared first, so nothing of an earlier prompt stays.
    pub fn get_prompt(&mut self) -> (r: &str)
        requires
            old(self).wf(),
        ensures
            final(self).wf(),
            renders(*old(self), *final(self), r@),
            r@.len() <= PROMPT_CAPACITY,
    {
        let mut parts: Vec<String> = Vec::new();
        parts.push(String::from_str(BOLD_GREEN));
        parts.push(String::from_str("radio-cli "));
        parts.push(String::from_str(BOLD_BLUE));
        parts.push(String::from_str(mode_str(self.mode)));
        parts.push(String::from_str(" "));
        parts.push(String::from_str(BOLD_YELLOW));
        parts.push(mhz_string(self.frequency_khz));
        parts.push(String::from_str(" MHz"));
        parts.push(String::from_str(BOLD_GREEN));
        parts.push(String::from_str(")>"));
        parts.push(String::from_str(RESET));
        parts.push(String::from_str(" "));
        let ghost want = prompt_parts(self.mode, self.frequency_khz);
        proof {
            assert(parts@.map_values(|p: String| p@) =~= want);
            reveal_strlit("\x1B[1;32m");
            reveal_strlit("radio-cli ");
            reveal_strlit("\x1B[1;34m");
            reveal_strlit("FM");
            reveal_strlit("AM");
            reveal_strlit("Off");
            reveal_strlit(" ");
            reveal_strlit("\x1B[1;33m");
            reveal_strlit(" MHz");
            reveal_strlit(")>");
            reveal_strlit("\x1B[0m");
            lemma_decimal_ascii(tenths_of_mhz(self.frequency_khz) / 10);
            assert forall|i: int| 0 <= i < want.len() implies ascii_text(#[trigger] want[i]) by {
                if i == 6 {
                    let d = decimal(tenths_of_mhz(self.frequency_khz) / 10);
                    let m = mhz_text(self.frequency_khz);
                    assert forall|j: int| 0 <= j < m.len() implies (#[trigger] m[j] as u32) < 128 by {
                        if j < d.len() {
                            assert(m[j] == d[j]);
                        }
                    }
                }
            }
        }
        buffer_clear(&mut self.prompt);
        let mut all_fit = true;
        let mut k: usize = 0;
        while k < parts.len()
            invariant
                k <= parts@.len(),
                self.mode == old(self).mode,
                self.frequency_khz == old(self).frequency_khz,
                want == prompt_parts(self.mode, self.frequency_khz),
                parts@.len() == want.len(),
                forall|i: int| 0 <= i < want.len() ==> #[trigger] parts@[i]@ == want[i],
                forall|i: int| 0 <= i < want.len() ==> ascii_text(#[trigger] want[i]),
                (buffer_chars(self.prompt), all_fit) == fill(want.subrange(0, k as int)),
            decreases parts@.len() - k,
        {
            proof {
                let pre = want.subrange(0, k as int);
                assert(want.subrange(0, k + 1).drop_last() =~= pre);
                assert forall|i: int| 0 <= i < pre.len() implies ascii_text(#[trigger] pre[i]) by {
                    assert(pre[i] == want[i]);
                }
                lemma_fill_bounds(pre);
                assert(ascii_text(want[k as int]));
            }
            if all_fit {
                all_fit = buffer_push_str(&mut self.prompt, parts[k].as_str());
            }
            k = k + 1;
        }
        proof {
            assert(want.subrange(0, want.len() as int) =~= want);
            lemma_fill_bounds(want);
        }
        buffer_as_str(&self.prompt)
    }
}

/// Total length of the first `n` parts.
pub open spec fn parts_len(parts: Seq<Seq<char>>, n: nat) -> nat
    decreases n,
{
    if n == 0 {
        0
    } else {
        parts_len(parts, (n - 1) as nat) + parts[n - 1].len()
    }
}

proof fn lemma_fill_all_fit(parts: Seq<Seq<char>>, n: nat)
    requires
        n <= parts.len(),
        parts_len(parts, n) <= PROMPT_CAPACITY,
    ensures
        fill(parts.subrange(0, n as int)).1,
        fill(parts.subrange(0, n as int)).0.len() == parts_len(parts, n),
    decreases n,
{
    if n > 0 {
        let pre = parts.subrange(0, n as int);
        assert(pre.drop_last() =~= parts.subrange(0, n - 1));
        lemma_fill_all_fit(parts, (n - 1) as nat);
    }
}

proof fn lemma_decimal_len(n: nat, k: nat)
    requires
        k >= 1,
        n < crate::command::pow10(k),
    ensures
        decimal(n).len() <= k,
    decreases n,
{
    if n >= 10 {
        assert(k >= 2) by {
            if k == 1 {
                reveal_with_fuel(crate::command::pow10, 2);
            }
        }
        let k1 = (k - 1) as nat;
        assert(crate::command::pow10(k) == 10 * crate::command::pow10(k1));
        assert(n / 10 < crate::command::pow10(k1)) by (nonlinear_arith)
            requires
                n < 10 * crate::command::pow10(k1),
        ;
        lemma_decimal_len(n / 10, k1);
    }
}

/// Every part of the prompt fits in the buffer, whatever the mode and the
/// frequency: rendering never has to leave a part out.
pub proof fn lemma_prompt_fits(m: RadioMode, khz: u32)
    ensures
        fill(prompt_parts(m, khz)).1,
{
    let parts = prompt_parts(m, khz);
    reveal_strlit("\x1B[1;32m");
    reveal_strlit("radio-cli ");
    reveal_strlit("\x1B[1;34m");
    reveal_strlit("FM");
    reveal_strlit("AM");
    reveal_strlit("Off");
    reveal_strlit(" ");
    reveal_strlit("\x1B[1;33m");
    reveal_strlit(" MHz");
    reveal_strlit(")>");
    reveal_strlit("\x1B[0m");
    let t = tenths_of_mhz(khz);
    assert(t / 10 < 10000000);
    reveal_with_fuel(crate::command::pow10, 8);
    lemma_decimal_len(t / 10, 7);
    assert(mhz_text(khz).len() <= 9);
    assert(mode_name(m).len() <= 3);
    reveal_with_fuel(parts_len, 13);
    assert(parts_len(parts, 12) <= PROMPT_CAPACITY);
    lemma_fill_all_fit(parts, 12);
    assert(parts.subrange(0, 12) =~= parts);
}

/// What a render does: the status is kept, and the text returned and held
/// is the prompt for it.
pub open spec fn renders(before: PromptStatus, after: PromptStatus, text: Seq<char>) -> bool {
    &&& after.mode() == before.mode()
    &&& after.frequency() == before.frequency()
    &&& after.rendered() == text
    &&& text == prompt_text(before.mode(), before.frequency())
}

/// Two renders in a row, with no change of status between them, give the
/// same text, and the buffer holds that text after both.
pub proof fn lemma_render_idempotent(
    s0: PromptStatus,
    s1: PromptStatus,
    s2: PromptStatus,
    first: Seq<char>,
    second: Seq<char>,
)
    requires
        renders(s0, s1, first),
        renders(s1, s2, second),
    ensures
        first == second,
        s2.rendered() == s1.rendered(),
{
}

} // verus!

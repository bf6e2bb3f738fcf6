//! Helper-process plumbing: the fixed command lines the library hands to the
//! system, the captured output it gets back, and wide strings.

use vstd::prelude::*;
use crate::registry::utf16_of;
use crate::text::{owned, push_owned, push_signed, push_str, signed_decimal, views};

verus! {

/// A fixed helper-process invocation (never frontend-controlled text).
pub struct Command {
    pub program: String,
    pub args: Vec<String>,
}

/// `program` is run with exactly `args`.
pub open spec fn command_is(c: Command, program: Seq<char>, args: Seq<Seq<char>>) -> bool {
    c.program@ == program && views(c.args@) == args
}

/// What a helper process reported.
pub struct Output {
    pub exit_code: i32,
    pub stdout: Vec<u8>,
    pub stderr: Vec<u8>,
}

/// What `String::from_utf8_lossy` makes of a byte string.
pub uninterp spec fn utf8_lossy(b: Seq<u8>) -> Seq<char>;

/// The characters of an all-ASCII byte string.
pub open spec fn ascii_chars(b: Seq<u8>) -> Seq<char> {
    Seq::new(b.len(), |i: int| b[i] as char)
}

/// `String::from_utf8_lossy`: the text of `b`, invalid sequences replaced by
/// U+FFFD. Its result is named; ASCII input (valid UTF-8) is kept as it is.
#[verifier::external_body]
fn lossy_string(b: &[u8]) -> (r: String)
    ensures
        r@ == utf8_lossy(b@),
        (forall|i: int| 0 <= i < b@.len() ==> b@[i] < 128) ==> r@ == ascii_chars(b@),
{
    String::from_utf8_lossy(b).to_string()
}

/// The text of a byte string as `String::from_utf8_lossy` gives it: an
/// all-ASCII string is kept character for character.
pub open spec fn lossy_text(b: Seq<u8>) -> Seq<char> {
    if forall|i: int| 0 <= i < b.len() ==> b[i] < 128 {
        ascii_chars(b)
    } else {
        utf8_lossy(b)
    }
}

/// The combined report of a helper process.
pub open spec fn combined_spec(exit_code: int, out: Seq<char>, err: Seq<char>) -> Seq<char> {
    "exit: "@ + signed_decimal(exit_code) + "\nstdout:\n"@ + out + "\nstderr:\n"@ + err
}

/// Standard output of `o` as text.
pub open spec fn out_stdout(o: Output) -> Seq<char> {
    lossy_text(o.stdout@)
}

/// Standard error of `o` as text.
pub open spec fn out_stderr(o: Output) -> Seq<char> {
    lossy_text(o.stderr@)
}

/// The combined report of `o`.
pub open spec fn out_combined(o: Output) -> Seq<char> {
    combined_spec(o.exit_code as int, out_stdout(o), out_stderr(o))
}

impl Output {
    /// Standard output as text.
    pub fn stdout_str(&self) -> (r: String)
        ensures
            r@ == lossy_text(self.stdout@),
            (forall|i: int| 0 <= i < self.stdout@.len() ==> self.stdout@[i] < 128) ==> r@ == ascii_chars(
                self.stdout@,
            ),
    {
        lossy_string(self.stdout.as_slice())
    }

    /// Standard error as text.
    pub fn stderr_str(&self) -> (r: String)
        ensures
            r@ == lossy_text(self.stderr@),
            (forall|i: int| 0 <= i < self.stderr@.len() ==> self.stderr@[i] < 128) ==> r@ == ascii_chars(
                self.stderr@,
            ),
    {
        lossy_string(self.stderr.as_slice())
    }

    /// Exit code, standard output and standard error in one report.
    pub fn combined(&self) -> (r: String)
        ensures
            r@ == combined_spec(self.exit_code as int, lossy_text(self.stdout@), lossy_text(self.stderr@)),
    {
        let mut s = owned("exit: ");
        push_signed(&mut s, self.exit_code);
        push_str(&mut s, "\nstdout:\n");
        let o = self.stdout_str();
        push_str(&mut s, o.as_str());
        push_str(&mut s, "\nstderr:\n");
        let e = self.stderr_str();
        push_str(&mut s, e.as_str());
        s
    }
}

/// A NUL-terminated UTF-16 string for the Windows wide-character APIs.
pub fn to_wide(s: &str) -> (w: Vec<u16>)
    ensures
        w@ == utf16_of(s@).push(0),
{
    let v = crate::text::chars_of(s);
    let mut w: Vec<u16> = Vec::new();
    let mut i: usize = 0;
    assert(s@.subrange(0, 0) =~= Seq::<char>::empty());
    while i < v.len()
        invariant
            v@ == s@,
            i <= v@.len(),
            w@ == utf16_of(s@.subrange(0, i as int)),
        decreases v.len() - i,
    {
        let c = v[i];
        let code = c as u32;
        let ghost pre = s@.subrange(0, i as int);
        proof {
            assert(s@.subrange(0, i + 1) =~= pre + seq![c]);
            crate::registry::lemma_utf16_append(pre, seq![c]);
            reveal_with_fuel(utf16_of, 2);
            assert(seq![c].drop_first() =~= Seq::<char>::empty());
            assert(utf16_of(seq![c]) =~= crate::registry::utf16_units(c));
            crate::registry::lemma_char_code(c);
        }
        if code < 0x10000 {
            w.push(code as u16);
            assert(w@ =~= utf16_of(pre) + crate::registry::utf16_units(c));
        } else {
            let x = code - 0x10000;
            w.push((0xD800 + x / 1024) as u16);
            w.push((0xDC00 + x % 1024) as u16);
            assert(w@ =~= utf16_of(pre) + crate::registry::utf16_units(c));
        }
        i = i + 1;
    }
    assert(s@.subrange(0, v@.len() as int) =~= s@);
    w.push(0);
    w
}

/// The PowerShell invocation that runs a fixed script (no profile, no prompts).
pub fn run_powershell(script: &str) -> (c: Command)
    ensures
        command_is(
            c,
            "powershell.exe"@,
            seq!["-NoProfile"@, "-NonInteractive"@, "-ExecutionPolicy"@, "Bypass"@, "-Command"@, script@],
        ),
{
    let mut args: Vec<String> = Vec::new();
    assert(views(args@) =~= Seq::<Seq<char>>::empty());
    push_owned(&mut args, "-NoProfile");
    push_owned(&mut args, "-NonInteractive");
    push_owned(&mut args, "-ExecutionPolicy");
    push_owned(&mut args, "Bypass");
    push_owned(&mut args, "-Command");
    push_owned(&mut args, script);
    assert(views(args@) =~= seq!["-NoProfile"@, "-NonInteractive"@, "-ExecutionPolicy"@, "Bypass"@, "-Command"@, script@]);
    Command { program: owned("powershell.exe"), args }
}

} // verus!

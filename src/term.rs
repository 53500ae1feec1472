use vstd::prelude::*;

verus! {

/// Input mode of a terminal.
#[derive(Clone, Copy, Debug, PartialEq, Eq, Structural)]
pub enum TtyMode {
    /// Canonical (line-buffered) input.
    Canon,
    /// Canonical input without echo.
    CanonNoEcho,
}

/// Table of a terminal's special codes.
#[allow(non_snake_case)]
#[derive(Clone, Copy, Debug, PartialEq, Eq, Structural)]
pub struct TtyCodes {
    /// The character that ends input in canonical mode.
    pub VEOF: char,
}

/// The UTF-8 encoding of a code point.
pub open spec fn utf8_of(cp: int) -> Seq<u8> {
    if cp < 0x80 {
        seq![cp as u8]
    } else if cp < 0x800 {
        seq![(0xC0 + cp / 64) as u8, (0x80 + cp % 64) as u8]
    } else if cp < 0x10000 {
        seq![(0xE0 + cp / 4096) as u8, (0x80 + (cp / 64) % 64) as u8, (0x80 + cp % 64) as u8]
    } else {
        seq![
            (0xF0 + cp / 262144) as u8,
            (0x80 + (cp / 4096) % 64) as u8,
            (0x80 + (cp / 64) % 64) as u8,
            (0x80 + cp % 64) as u8,
        ]
    }
}

/// Append the UTF-8 encoding of `c`.
fn push_utf8(out: &mut Vec<u8>, c: char)
    ensures
        final(out)@ == old(out)@ + utf8_of(c as u32 as int),
{
    let cp = c as u32;
    assert(cp <= 0x10FFFF);
    if cp < 0x80 {
        out.push(cp as u8);
    } else if cp < 0x800 {
        out.push((0xC0 + cp / 64) as u8);
        out.push((0x80 + cp % 64) as u8);
    } else if cp < 0x10000 {
        out.push((0xE0 + cp / 4096) as u8);
        out.push((0x80 + (cp / 64) % 64) as u8);
        out.push((0x80 + cp % 64) as u8);
    } else {
        out.push((0xF0 + cp / 262144) as u8);
        out.push((0x80 + (cp / 4096) % 64) as u8);
        out.push((0x80 + (cp / 64) % 64) as u8);
        out.push((0x80 + cp % 64) as u8);
    }
    assert(out@ =~= old(out)@ + utf8_of(cp as int));
}

/// Whether a control byte passes the filter: tab and line feed do.
pub open spec fn keeps_control(b: u8) -> bool {
    b == 9 || b == 10
}

/// The text-keeping side of an ANSI-stripping filter: it is told each
/// printable character and each control byte that a terminal parser finds,
/// and keeps the bytes of the text; escape sequences never reach it.
pub struct AnsiFilter {
    kept: Vec<u8>,
}

impl AnsiFilter {
    /// The bytes kept and not yet taken.
    pub closed spec fn kept_spec(&self) -> Seq<u8> {
        self.kept@
    }

    /// A filter that kept nothing yet.
    pub fn new() -> (r: Self)
        ensures
            r.kept_spec() == Seq::<u8>::empty(),
    {
        AnsiFilter { kept: Vec::new() }
    }

    /// A printable character: its UTF-8 encoding is kept.
    pub fn print(&mut self, c: char)
        ensures
            final(self).kept_spec() == old(self).kept_spec() + utf8_of(c as u32 as int),
    {
        push_utf8(&mut self.kept, c);
    }

    /// A control byte: tab and line feed are kept, others dropped.
    pub fn execute(&mut self, b: u8)
        ensures
            final(self).kept_spec() == if keeps_control(b) {
                old(self).kept_spec().push(b)
            } else {
                old(self).kept_spec()
            },
    {
        if b == 9 || b == 10 {
            self.kept.push(b);
        }
    }

    /// Take the bytes kept so far.
    pub fn take(&mut self) -> (r: Vec<u8>)
        ensures
            r@ == old(self).kept_spec(),
            final(self).kept_spec() == Seq::<u8>::empty(),
    {
        let mut r = Vec::new();
        std::mem::swap(&mut r, &mut self.kept);
        r
    }
}

} // verus!

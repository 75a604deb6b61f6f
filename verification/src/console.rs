//! The serial console behind the UART: one byte out, one byte in.

use vstd::prelude::*;

verus! {

/// A terminal as the UART sees it.
pub trait Console {
    /// Hands one byte to the terminal.
    fn putchar(&mut self, c: u8);

    /// Takes the next byte that the terminal has received; 0 when there is none.
    fn getchar(&mut self) -> u8;
}

/// What a `Tty` holds: whether an escape sequence is being skipped, the bytes received and
/// not yet read, and the bytes accepted for display and not yet collected.
pub struct TtyView {
    pub in_esc_sequences: bool,
    pub input: Seq<u8>,
    pub output: Seq<u8>,
}

impl TtyView {
    /// Whether the byte `c` is accepted for display: carriage returns, escape sequences up
    /// to the byte after the bracket, and bytes outside ASCII are dropped.
    pub open spec fn shows(self, c: u8) -> bool {
        c != 0x0d && c != 0x1b && !self.in_esc_sequences && c < 0x80
    }

    /// Whether an escape sequence is being skipped once `c` has been handed over.
    pub open spec fn escaping_after(self, c: u8) -> bool {
        if c == 0x0d {
            self.in_esc_sequences
        } else if c == 0x1b {
            true
        } else if c == 0x5b {
            self.in_esc_sequences
        } else {
            false
        }
    }

    /// The terminal after `putchar(c)`.
    pub open spec fn put(self, c: u8) -> TtyView {
        TtyView {
            in_esc_sequences: self.escaping_after(c),
            output: if self.shows(c) {
                self.output.push(c)
            } else {
                self.output
            },
            ..self
        }
    }

    /// The byte that `getchar` returns.
    pub open spec fn front(self) -> u8 {
        if self.input.len() > 0 {
            self.input[0]
        } else {
            0
        }
    }

    /// The terminal after `getchar`.
    pub open spec fn pop(self) -> TtyView {
        TtyView {
            input: if self.input.len() > 0 {
                self.input.drop_first()
            } else {
                self.input
            },
            ..self
        }
    }
}

/// A terminal that buffers both directions: whoever owns the screen and the keyboard feeds
/// `push_input` and empties `take_output`.
pub struct Tty {
    in_esc_sequences: bool,
    input: Vec<u8>,
    output: Vec<u8>,
}

impl View for Tty {
    type V = TtyView;

    closed spec fn view(&self) -> TtyView {
        TtyView {
            in_esc_sequences: self.in_esc_sequences,
            input: self.input@,
            output: self.output@,
        }
    }
}

impl Tty {
    pub fn new() -> (r: Self)
        ensures
            r@ == (TtyView { in_esc_sequences: false, input: Seq::empty(), output: Seq::empty() }),
    {
        Tty { in_esc_sequences: false, input: Vec::new(), output: Vec::new() }
    }

    /// Queues a byte that the keyboard delivered.
    pub fn push_input(&mut self, c: u8)
        ensures
            final(self)@ == (TtyView { input: old(self)@.input.push(c), ..old(self)@ }),
    {
        self.input.push(c);
    }

    /// Hands out the bytes accepted for display since the last call.
    pub fn take_output(&mut self) -> (r: Vec<u8>)
        ensures
            r@ == old(self)@.output,
            final(self)@ == (TtyView { output: Seq::empty(), ..old(self)@ }),
    {
        let mut out: Vec<u8> = Vec::new();
        std::mem::swap(&mut out, &mut self.output);
        out
    }
}

impl Console for Tty {
    fn putchar(&mut self, c: u8)
        ensures
            final(self)@ == old(self)@.put(c),
    {
        if c == 0x0d {
            return ;
        }
        if c == 0x1b {
            self.in_esc_sequences = true;
            return ;
        }
        if self.in_esc_sequences {
            if c != 0x5b {
                self.in_esc_sequences = false;
            }
            return ;
        }
        if c < 0x80 {
            self.output.push(c);
        }
    }

    fn getchar(&mut self) -> (c: u8)
        ensures
            c == old(self)@.front(),
            final(self)@ == old(self)@.pop(),
    {
        if self.input.len() > 0 {
            let c = self.input.remove(0);
            assert(self.input@ =~= old(self).input@.drop_first());
            c
        } else {
            0
        }
    }
}

/// A terminal that shows nothing and never has input.
pub struct TtyDummy {}

impl TtyDummy {
    pub fn new() -> Self {
        TtyDummy {  }
    }
}

impl Console for TtyDummy {
    fn putchar(&mut self, _c: u8) {
    }

    fn getchar(&mut self) -> (c: u8)
        ensures
            c == 0,
    {
        0
    }
}

/// The terminal chosen when the machine is built.
pub enum Terminal {
    Screen(Tty),
    Dummy(TtyDummy),
}

/// What a `Terminal` holds.
pub enum TerminalView {
    Screen(TtyView),
    Dummy,
}

impl TerminalView {
    /// The terminal after `putchar(c)`.
    pub open spec fn put(self, c: u8) -> TerminalView {
        match self {
            TerminalView::Screen(t) => TerminalView::Screen(t.put(c)),
            TerminalView::Dummy => TerminalView::Dummy,
        }
    }

    /// The byte that `getchar` returns.
    pub open spec fn front(self) -> u8 {
        match self {
            TerminalView::Screen(t) => t.front(),
            TerminalView::Dummy => 0,
        }
    }

    /// The terminal after `getchar`.
    pub open spec fn pop(self) -> TerminalView {
        match self {
            TerminalView::Screen(t) => TerminalView::Screen(t.pop()),
            TerminalView::Dummy => TerminalView::Dummy,
        }
    }
}

impl View for Terminal {
    type V = TerminalView;

    open spec fn view(&self) -> TerminalView {
        match self {
            Terminal::Screen(t) => TerminalView::Screen(t@),
            Terminal::Dummy(_) => TerminalView::Dummy,
        }
    }
}

impl Console for Terminal {
    fn putchar(&mut self, c: u8)
        ensures
            final(self)@ == old(self)@.put(c),
    {
        match self {
            Terminal::Screen(t) => t.putchar(c),
            Terminal::Dummy(t) => t.putchar(c),
        }
    }

    fn getchar(&mut self) -> (c: u8)
        ensures
            c == old(self)@.front(),
            final(self)@ == old(self)@.pop(),
    {
        match self {
            Terminal::Screen(t) => t.getchar(),
            Terminal::Dummy(t) => t.getchar(),
        }
    }
}

} // verus!

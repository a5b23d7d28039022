//! How deep the tables and arrays of a TOML text nest, measured on the text.
//!
//! The measure follows brackets, braces and dots where they stand outside
//! strings and comments. A table header counts one level for each bracket
//! and each dot; below it, every dot of a key and every array or inline
//! table that is open adds a level, and a comma goes back to the level of
//! the array or table it stands in. A dot in a value, which can only belong
//! to a number or a time, adds nothing.

use vstd::prelude::*;
use crate::text::chars_of;

verus! {

/// Where a scan stands among strings and comments.
#[derive(Clone, Copy, Debug, PartialEq, Eq, Structural)]
pub enum Lex {
    /// Outside strings and comments.
    Code,
    /// In a comment, up to the end of the line.
    Comment,
    /// After the opening quote of a string, or after two of them.
    Opening { quote: char, two: bool },
    /// In a string of one line.
    Single { quote: char },
    /// After a backslash in a string with escapes.
    Escape { multiline: bool },
    /// In a string of several lines, after `run` quotes in a row.
    Multi { quote: char, run: u8 },
    /// After the three closing quotes of a string of several lines and
    /// `extra` more, which belong to the string.
    Closing { quote: char, extra: u8 },
}

/// An open array or inline table.
pub struct Frame {
    /// The level of its items.
    pub level: nat,
    /// Whether it is an inline table, whose items begin with a key.
    pub table: bool,
}

/// The state of a scan as a mathematical value.
pub struct ScanView {
    pub lex: Lex,
    /// Nothing but blanks has been read of the current statement.
    pub fresh: bool,
    /// The current line is a table header.
    pub in_header: bool,
    /// The scan stands in a value, not in a key.
    pub in_value: bool,
    /// The levels of the current table header.
    pub header: nat,
    /// The level at which the scan stands.
    pub level: nat,
    /// The open arrays and inline tables, outermost first.
    pub stack: Seq<Frame>,
    /// The highest level reached.
    pub peak: nat,
}

/// The state before the first character.
pub open spec fn scan_start() -> ScanView {
    ScanView {
        lex: Lex::Code,
        fresh: true,
        in_header: false,
        in_value: false,
        header: 0,
        level: 0,
        stack: Seq::empty(),
        peak: 0,
    }
}

/// The same state in another place among strings and comments.
pub open spec fn with_lex(state: ScanView, lex: Lex) -> ScanView {
    ScanView { lex, ..state }
}

/// The state at a given level, which counts towards the peak.
pub open spec fn at_level(state: ScanView, level: nat) -> ScanView {
    ScanView {
        fresh: false,
        level,
        peak: if level > state.peak {
            level
        } else {
            state.peak
        },
        ..state
    }
}

/// Whether a character outside strings is a blank that starts nothing.
pub open spec fn is_blank(c: char) -> bool {
    c == ' ' || c == '\t' || c == '\r' || c == '\u{feff}'
}

/// The state after a character that stands outside strings and comments.
pub open spec fn code_step(state: ScanView, c: char) -> ScanView {
    if is_blank(c) {
        state
    } else if c == '\n' {
        if state.stack.len() == 0 {
            ScanView {
                fresh: true,
                in_header: false,
                in_value: false,
                level: state.header,
                ..state
            }
        } else {
            state
        }
    } else if c == '#' {
        with_lex(state, Lex::Comment)
    } else if c == '"' || c == '\'' {
        ScanView { lex: Lex::Opening { quote: c, two: false }, fresh: false, ..state }
    } else if c == '[' && state.fresh && state.stack.len() == 0 {
        ScanView { in_header: true, header: 1, ..at_level(state, 1) }
    } else if (c == '[' || c == '.') && state.in_header {
        ScanView { header: state.header + 1, ..at_level(state, state.header + 1) }
    } else if c == '[' || c == '{' {
        ScanView {
            stack: state.stack.push(Frame { level: state.level + 1, table: c == '{' }),
            in_value: c == '[',
            ..at_level(state, state.level + 1)
        }
    } else if c == '.' && !state.in_value {
        at_level(state, state.level + 1)
    } else if c == '=' {
        ScanView { fresh: false, in_value: true, ..state }
    } else if c == ',' {
        if state.stack.len() > 0 {
            ScanView {
                fresh: false,
                in_value: !state.stack.last().table,
                level: state.stack.last().level,
                ..state
            }
        } else {
            ScanView { fresh: false, ..state }
        }
    } else if (c == ']' || c == '}') && !state.in_header && state.stack.len() > 0 {
        let rest = state.stack.drop_last();
        ScanView {
            fresh: false,
            in_value: true,
            stack: rest,
            level: if rest.len() > 0 {
                rest.last().level
            } else {
                state.header
            },
            ..state
        }
    } else {
        ScanView { fresh: false, ..state }
    }
}

/// The state after a character inside a string of one line.
pub open spec fn single_step(state: ScanView, quote: char, c: char) -> ScanView {
    if c == quote {
        with_lex(state, Lex::Code)
    } else if quote == '"' && c == '\\' {
        with_lex(state, Lex::Escape { multiline: false })
    } else {
        with_lex(state, Lex::Single { quote })
    }
}

/// The state after one more character.
pub open spec fn scan_step(state: ScanView, c: char) -> ScanView {
    match state.lex {
        Lex::Code => code_step(state, c),
        Lex::Comment => if c == '\n' {
            code_step(with_lex(state, Lex::Code), c)
        } else {
            state
        },
        Lex::Opening { quote, two } => if c == quote {
            if two {
                with_lex(state, Lex::Multi { quote, run: 0 })
            } else {
                with_lex(state, Lex::Opening { quote, two: true })
            }
        } else if two {
            code_step(with_lex(state, Lex::Code), c)
        } else {
            single_step(state, quote, c)
        },
        Lex::Single { quote } => single_step(state, quote, c),
        Lex::Escape { multiline } => if multiline {
            with_lex(state, Lex::Multi { quote: '"', run: 0 })
        } else {
            with_lex(state, Lex::Single { quote: '"' })
        },
        Lex::Multi { quote, run } => if c == quote {
            if run >= 2 {
                with_lex(state, Lex::Closing { quote, extra: 0 })
            } else {
                with_lex(state, Lex::Multi { quote, run: (run + 1) as u8 })
            }
        } else if quote == '"' && c == '\\' {
            with_lex(state, Lex::Escape { multiline: true })
        } else {
            with_lex(state, Lex::Multi { quote, run: 0 })
        },
        Lex::Closing { quote, extra } => if c == quote && extra < 2 {
            with_lex(state, Lex::Closing { quote, extra: (extra + 1) as u8 })
        } else {
            code_step(with_lex(state, Lex::Code), c)
        },
    }
}

/// The state after the first `n` characters of a text.
pub open spec fn scan(text: Seq<char>, n: nat) -> ScanView
    decreases n,
{
    if n == 0 {
        scan_start()
    } else {
        scan_step(scan(text, (n - 1) as nat), text[n - 1])
    }
}

/// The highest level that a text reaches.
pub open spec fn nesting_peak(text: Seq<char>) -> nat {
    scan(text, text.len()).peak
}

/// Whether no level of a state exceeds `bound`.
pub open spec fn is_bounded(state: ScanView, bound: nat) -> bool {
    &&& state.header <= bound
    &&& state.level <= bound
    &&& state.peak <= bound
    &&& forall|k: int| 0 <= k < state.stack.len() ==> (#[trigger] state.stack[k]).level <= bound
}

/// A scan in progress.
struct Scanner {
    lex: Lex,
    fresh: bool,
    in_header: bool,
    in_value: bool,
    header: usize,
    level: usize,
    stack: Vec<(usize, bool)>,
    peak: usize,
}

impl View for Scanner {
    type V = ScanView;

    closed spec fn view(&self) -> ScanView {
        ScanView {
            lex: self.lex,
            fresh: self.fresh,
            in_header: self.in_header,
            in_value: self.in_value,
            header: self.header as nat,
            level: self.level as nat,
            stack: self.stack@.map_values(
                |frame: (usize, bool)| Frame { level: frame.0 as nat, table: frame.1 },
            ),
            peak: self.peak as nat,
        }
    }
}

impl Scanner {
    /// A scan that has read nothing.
    fn new() -> (scanner: Scanner)
        ensures
            scanner@ == scan_start(),
    {
        let scanner = Scanner {
            lex: Lex::Code,
            fresh: true,
            in_header: false,
            in_value: false,
            header: 0,
            level: 0,
            stack: Vec::new(),
            peak: 0,
        };
        assert(scanner@.stack =~= Seq::<Frame>::empty());
        scanner
    }

    /// The highest level reached so far.
    fn peak(&self) -> (peak: usize)
        ensures
            peak == self@.peak,
    {
        self.peak
    }

    fn go_to(&mut self, level: usize)
        ensures
            final(self)@ == at_level(old(self)@, level as nat),
    {
        self.fresh = false;
        self.level = level;
        if level > self.peak {
            self.peak = level;
        }
    }

    fn code(&mut self, c: char, Ghost(bound): Ghost<nat>)
        requires
            bound < usize::MAX,
            is_bounded(old(self)@, bound),
        ensures
            final(self)@ == code_step(old(self)@, c),
    {
        let ghost before = self@;
        if c == ' ' || c == '\t' || c == '\r' || c == '\u{feff}' {
        } else if c == '\n' {
            if self.stack.len() == 0 {
                self.fresh = true;
                self.in_header = false;
                self.in_value = false;
                self.level = self.header;
            }
        } else if c == '#' {
            self.lex = Lex::Comment;
        } else if c == '"' || c == '\'' {
            self.lex = Lex::Opening { quote: c, two: false };
            self.fresh = false;
        } else if c == '[' && self.fresh && self.stack.len() == 0 {
            self.go_to(1);
            self.in_header = true;
            self.header = 1;
        } else if (c == '[' || c == '.') && self.in_header {
            let deeper = self.header + 1;
            self.go_to(deeper);
            self.header = deeper;
        } else if c == '[' || c == '{' {
            let deeper = self.level + 1;
            self.go_to(deeper);
            self.stack.push((deeper, c == '{'));
            self.in_value = c == '[';
            assert(self@.stack =~= before.stack.push(
                Frame { level: deeper as nat, table: c == '{' },
            ));
        } else if c == '.' && !self.in_value {
            let deeper = self.level + 1;
            self.go_to(deeper);
        } else if c == '=' {
            self.fresh = false;
            self.in_value = true;
        } else if c == ',' {
            self.fresh = false;
            if self.stack.len() > 0 {
                let frame = self.stack[self.stack.len() - 1];
                self.level = frame.0;
                self.in_value = !frame.1;
            }
        } else if (c == ']' || c == '}') && !self.in_header && self.stack.len() > 0 {
            self.fresh = false;
            self.in_value = true;
            self.stack.pop();
            assert(self@.stack =~= before.stack.drop_last());
            if self.stack.len() > 0 {
                self.level = self.stack[self.stack.len() - 1].0;
            } else {
                self.level = self.header;
            }
        } else {
            self.fresh = false;
        }
    }

    fn single(&mut self, quote: char, c: char)
        ensures
            final(self)@ == single_step(old(self)@, quote, c),
    {
        if c == quote {
            self.lex = Lex::Code;
        } else if quote == '"' && c == '\\' {
            self.lex = Lex::Escape { multiline: false };
        } else {
            self.lex = Lex::Single { quote };
        }
    }

    /// Reads one more character.
    fn step(&mut self, c: char, Ghost(bound): Ghost<nat>)
        requires
            bound < usize::MAX,
            is_bounded(old(self)@, bound),
        ensures
            final(self)@ == scan_step(old(self)@, c),
            is_bounded(final(self)@, bound + 1),
    {
        match self.lex {
            Lex::Code => {
                self.code(c, Ghost(bound));
            },
            Lex::Comment => {
                if c == '\n' {
                    self.lex = Lex::Code;
                    assert(is_bounded(self@, bound));
                    self.code(c, Ghost(bound));
                }
            },
            Lex::Opening { quote, two } => {
                if c == quote {
                    if two {
                        self.lex = Lex::Multi { quote, run: 0 };
                    } else {
                        self.lex = Lex::Opening { quote, two: true };
                    }
                } else if two {
                    self.lex = Lex::Code;
                    assert(is_bounded(self@, bound));
                    self.code(c, Ghost(bound));
                } else {
                    self.single(quote, c);
                }
            },
            Lex::Single { quote } => {
                self.single(quote, c);
            },
            Lex::Escape { multiline } => {
                if multiline {
                    self.lex = Lex::Multi { quote: '"', run: 0 };
                } else {
                    self.lex = Lex::Single { quote: '"' };
                }
            },
            Lex::Multi { quote, run } => {
                if c == quote {
                    if run >= 2 {
                        self.lex = Lex::Closing { quote, extra: 0 };
                    } else {
                        self.lex = Lex::Multi { quote, run: run + 1 };
                    }
                } else if quote == '"' && c == '\\' {
                    self.lex = Lex::Escape { multiline: true };
                } else {
                    self.lex = Lex::Multi { quote, run: 0 };
                }
            },
            Lex::Closing { quote, extra } => {
                if c == quote && extra < 2 {
                    self.lex = Lex::Closing { quote, extra: extra + 1 };
                } else {
                    self.lex = Lex::Code;
                    assert(is_bounded(self@, bound));
                    self.code(c, Ghost(bound));
                }
            },
        }
    }
}

/// Measures how deep a TOML text nests.
pub fn nesting_peak_of(text: &str) -> (peak: usize)
    ensures
        peak == nesting_peak(text@),
{
    let chars = chars_of(text);
    let mut scanner = Scanner::new();
    let mut i: usize = 0;
    while i < chars.len()
        invariant
            i <= chars.len(),
            chars@ == text@,
            scanner@ == scan(text@, i as nat),
            is_bounded(scanner@, i as nat),
        decreases chars.len() - i,
    {
        scanner.step(chars[i], Ghost(i as nat));
        i += 1;
    }
    scanner.peak()
}

} // verus!

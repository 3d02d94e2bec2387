use vstd::prelude::*;
use crate::clock::{Timestamp, local_now};
use crate::palette::{Colors, fatal_background, fatal_highlight};
use crate::stamp::{date_block, render_date};

verus! {

/// How the timestamp of one line is shown.
#[derive(Clone, Copy, Debug)]
pub struct OverwriteDate {
    pub show: bool,
    /// A pattern of date tokens; empty means the logger's own pattern.
    pub format: &'static str,
}

/// The escape sequence used for each severity.
#[derive(Clone, Copy, Debug)]
pub struct Coloring {
    pub fatal: &'static str,
    pub error: &'static str,
    pub info: &'static str,
    pub debug: &'static str,
}

/// Display options for a single line.
#[derive(Clone, Copy, Debug)]
pub struct Overwrite {
    /// The title; an empty one drops the title and its brackets.
    pub title: &'static str,
    /// The title color; empty means the severity's color.
    pub color: &'static str,
    pub underline: bool,
    pub date: OverwriteDate,
}

/// The four kinds of line.
#[derive(Clone, Copy, Debug, PartialEq, Eq, Structural)]
pub enum Severity {
    Info,
    Error,
    Debug,
    Fatal,
}

impl Severity {
    /// The default title of a line of this severity.
    pub open spec fn title(self) -> Seq<char> {
        match self {
            Severity::Info => seq!['I', 'n', 'f', 'o'],
            Severity::Error => seq!['E', 'r', 'r', 'o', 'r'],
            Severity::Debug => seq!['D', 'e', 'b', 'u', 'g'],
            Severity::Fatal => seq!['F', 'a', 't', 'a', 'l'],
        }
    }

    pub fn name(&self) -> (r: &'static str)
        ensures
            r@ == self.title(),
    {
        match self {
            Severity::Info => {
                proof { reveal_strlit("Info"); }
                "Info"
            },
            Severity::Error => {
                proof { reveal_strlit("Error"); }
                "Error"
            },
            Severity::Debug => {
                proof { reveal_strlit("Debug"); }
                "Debug"
            },
            Severity::Fatal => {
                proof { reveal_strlit("Fatal"); }
                "Fatal"
            },
        }
    }
}

/// The timestamp pattern a logger uses when none is given.
pub open spec fn default_pattern() -> Seq<char> {
    seq!['Y', 'Y', '-', 'M', 'M', '-', 'D', 'D', ' ', 'H', 'H', ':', 'M', 'I']
}

/// The number of spaces between the title block and the message:
/// `8 - n + n / 2`, and none where that is negative.
pub open spec fn pad_len(n: nat) -> nat {
    if n <= 8 + n / 2 {
        (8 + n / 2 - n) as nat
    } else {
        0
    }
}

pub open spec fn spaces(n: nat) -> Seq<char> {
    Seq::new(n, |_i: int| ' ')
}

/// The title as shown: behind a filled background for fatal lines, plain otherwise.
pub open spec fn shown_title(severity: Severity, title: Seq<char>) -> Seq<char> {
    if severity == Severity::Fatal {
        fatal_background() + title
    } else {
        title
    }
}

/// The spaces that follow a title of `title_len` characters.
pub fn padding(title_len: usize) -> (r: String)
    ensures
        r@ == spaces(pad_len(title_len as nat)),
{
    let half = title_len / 2;
    let count: usize = if title_len <= 8 + half {
        8 + half - title_len
    } else {
        0
    };
    let mut r = String::new();
    let mut i: usize = 0;
    while i < count
        invariant
            i <= count,
            count == pad_len(title_len as nat),
            r@ == spaces(i as nat),
        decreases count - i,
    {
        proof {
            reveal_strlit(" ");
        }
        r.append(" ");
        i = i + 1;
        assert(r@ =~= spaces(i as nat));
    }
    r
}

/// Joins the parts of a line, in the order they are shown.
fn assemble(
    date: String,
    color: &str,
    open: &str,
    ul: &str,
    severity: Severity,
    title: &str,
    close: &str,
    message: &str,
) -> (r: String)
    ensures
        r@ == date@ + seq![' ', ' '] + color@ + open@ + ul@ + shown_title(severity, title@)
            + Colors::RESET.code() + color@ + close@ + spaces(pad_len(title@.len())) + ul@
            + message@ + Colors::RESET.code(),
{
    let mut r = date;
    proof {
        reveal_strlit("  ");
    }
    r.append("  ");
    r.append(color);
    r.append(open);
    r.append(ul);
    if severity == Severity::Fatal {
        r.append(fatal_highlight());
    }
    r.append(title);
    r.append(Colors::RESET.resolve());
    r.append(color);
    r.append(close);
    let pad = padding(title.unicode_len());
    r.append(pad.as_str());
    r.append(ul);
    r.append(message);
    r.append(Colors::RESET.resolve());
    r
}

/// The defaults that every line starts from.
#[derive(Clone, Copy, Debug)]
pub struct Logger {
    /// The opening and closing bracket around a title.
    pub symbols: (&'static str, &'static str),
    pub colors: Coloring,
    /// The default timestamp pattern.
    pub date: &'static str,
}

impl Logger {
    /// The configured color of a severity.
    pub open spec fn default_color(self, severity: Severity) -> Seq<char> {
        match severity {
            Severity::Fatal => self.colors.fatal@,
            Severity::Error => self.colors.error@,
            Severity::Info => self.colors.info@,
            Severity::Debug => self.colors.debug@,
        }
    }

    /// The color of the title, the brackets and the message.
    pub open spec fn color_of(self, severity: Severity, overwrite: Option<Overwrite>) -> Seq<char> {
        match overwrite {
            Some(o) => if o.color@.len() > 0 {
                o.color@
            } else {
                self.default_color(severity)
            },
            None => self.default_color(severity),
        }
    }

    /// The title text; empty when suppressed.
    pub open spec fn title_of(severity: Severity, overwrite: Option<Overwrite>) -> Seq<char> {
        match overwrite {
            Some(o) => o.title@,
            None => severity.title(),
        }
    }

    /// The opening bracket: none when the title is suppressed.
    pub open spec fn open_of(self, severity: Severity, overwrite: Option<Overwrite>) -> Seq<char> {
        if Self::title_of(severity, overwrite).len() > 0 {
            self.symbols.0@
        } else {
            Seq::empty()
        }
    }

    /// The closing bracket: none when the title is suppressed.
    pub open spec fn close_of(self, severity: Severity, overwrite: Option<Overwrite>) -> Seq<char> {
        if Self::title_of(severity, overwrite).len() > 0 {
            self.symbols.1@
        } else {
            Seq::empty()
        }
    }

    /// The underline escape where underlining was asked for.
    pub open spec fn underline_of(overwrite: Option<Overwrite>) -> Seq<char> {
        match overwrite {
            Some(o) => if o.underline {
                Colors::UNDERLINE.code()
            } else {
                Seq::empty()
            },
            None => Seq::empty(),
        }
    }

    /// The timestamp pattern of a line; empty when the timestamp is hidden.
    pub open spec fn pattern_of(self, overwrite: Option<Overwrite>) -> Seq<char> {
        match overwrite {
            Some(o) => if !o.date.show {
                Seq::empty()
            } else if o.date.format@.len() > 0 {
                o.date.format@
            } else {
                self.date@
            },
            None => self.date@,
        }
    }

    /// Everything of a line after the timestamp block and the two spaces.
    pub open spec fn body(
        self,
        message: Seq<char>,
        severity: Severity,
        overwrite: Option<Overwrite>,
    ) -> Seq<char> {
        let color = self.color_of(severity, overwrite);
        let title = Self::title_of(severity, overwrite);
        let ul = Self::underline_of(overwrite);
        color + self.open_of(severity, overwrite) + ul + shown_title(severity, title)
            + Colors::RESET.code() + color + self.close_of(severity, overwrite) + spaces(
            pad_len(title.len()),
        ) + ul + message + Colors::RESET.code()
    }

    /// The whole line for a message at the time `now`.
    pub open spec fn line(
        self,
        message: Seq<char>,
        severity: Severity,
        overwrite: Option<Overwrite>,
        now: Timestamp,
    ) -> Seq<char> {
        let color = self.color_of(severity, overwrite);
        let title = Self::title_of(severity, overwrite);
        let ul = Self::underline_of(overwrite);
        date_block(self.pattern_of(overwrite), now) + seq![' ', ' '] + color + self.open_of(
            severity,
            overwrite,
        ) + ul + shown_title(severity, title) + Colors::RESET.code() + color + self.close_of(
            severity,
            overwrite,
        ) + spaces(pad_len(title.len())) + ul + message + Colors::RESET.code()
    }

    pub fn init(
        symbols: Option<(&'static str, &'static str)>,
        colors: Option<Coloring>,
        date: Option<&'static str>,
    ) -> (r: Self)
        ensures
            match symbols {
                Some(s) => r.symbols == s,
                None => r.symbols.0@.len() == 0 && r.symbols.1@.len() == 0,
            },
            match colors {
                Some(c) => r.colors == c,
                None => {
                    &&& r.colors.fatal@ == Colors::WHITE.code()
                    &&& r.colors.error@ == Colors::RED.code()
                    &&& r.colors.info@ == Colors::BLUE.code()
                    &&& r.colors.debug@ == Colors::MAGENTA.code()
                },
            },
            match date {
                Some(d) => r.date == d,
                None => r.date@ == default_pattern(),
            },
    {
        let symbols = match symbols {
            Some(s) => s,
            None => {
                proof {
                    reveal_strlit("");
                }
                ("", "")
            },
        };
        let colors = match colors {
            Some(c) => c,
            None => Coloring {
                fatal: Colors::WHITE.resolve(),
                error: Colors::RED.resolve(),
                info: Colors::BLUE.resolve(),
                debug: Colors::MAGENTA.resolve(),
            },
        };
        let date = match date {
            Some(d) => d,
            None => {
                proof {
                    reveal_strlit("YY-MM-DD HH:MI");
                }
                "YY-MM-DD HH:MI"
            },
        };
        Logger { symbols, colors, date }
    }

    fn color_for(&self, severity: Severity) -> (r: &'static str)
        ensures
            r@ == self.default_color(severity),
    {
        match severity {
            Severity::Fatal => self.colors.fatal,
            Severity::Error => self.colors.error,
            Severity::Info => self.colors.info,
            Severity::Debug => self.colors.debug,
        }
    }

    /// Builds the line for `message` as of the time `now`.
    pub fn render(
        &self,
        message: &str,
        severity: Severity,
        overwrite: Option<Overwrite>,
        now: &Timestamp,
    ) -> (r: String)
        ensures
            r@ == self.line(message@, severity, overwrite, *now),
    {
        proof {
            reveal_strlit("");
        }
        let base = self.color_for(severity);
        let (color, title, underline, pattern) = match overwrite {
            None => (base, severity.name(), false, self.date),
            Some(o) => {
                let color = if o.color.unicode_len() > 0 {
                    o.color
                } else {
                    base
                };
                let pattern = if !o.date.show {
                    ""
                } else if o.date.format.unicode_len() > 0 {
                    o.date.format
                } else {
                    self.date
                };
                (color, o.title, o.underline, pattern)
            },
        };
        let title_len = title.unicode_len();
        let (open, close) = if title_len > 0 {
            self.symbols
        } else {
            ("", "")
        };
        let ul = if underline {
            Colors::UNDERLINE.resolve()
        } else {
            ""
        };
        assert(color@ == self.color_of(severity, overwrite));
        assert(title@ == Self::title_of(severity, overwrite));
        assert(pattern@ == self.pattern_of(overwrite));
        assert(open@ == self.open_of(severity, overwrite));
        assert(close@ == self.close_of(severity, overwrite));
        assert(ul@ == Self::underline_of(overwrite));
        let date = render_date(pattern, now);
        assemble(date, color, open, ul, severity, title, close, message)
    }

    /// The line for an info message, stamped with the current local time.
    pub fn info(&self, message: &str, overwrite: Option<Overwrite>) -> (r: String)
        ensures
            exists|t: Timestamp| t.wf() && r@ == self.line(message@, Severity::Info, overwrite, t),
    {
        let now = local_now();
        self.render(message, Severity::Info, overwrite, &now)
    }

    /// The line for a fatal message, stamped with the current local time.
    pub fn fatal(&self, message: &str, overwrite: Option<Overwrite>) -> (r: String)
        ensures
            exists|t: Timestamp| t.wf() && r@ == self.line(message@, Severity::Fatal, overwrite, t),
    {
        let now = local_now();
        self.render(message, Severity::Fatal, overwrite, &now)
    }

    /// The line for an error message, stamped with the current local time.
    pub fn error(&self, message: &str, overwrite: Option<Overwrite>) -> (r: String)
        ensures
            exists|t: Timestamp| t.wf() && r@ == self.line(message@, Severity::Error, overwrite, t),
    {
        let now = local_now();
        self.render(message, Severity::Error, overwrite, &now)
    }

    /// The line for a debug message, stamped with the current local time.
    pub fn debug(&self, message: &str, overwrite: Option<Overwrite>) -> (r: String)
        ensures
            exists|t: Timestamp| t.wf() && r@ == self.line(message@, Severity::Debug, overwrite, t),
    {
        let now = local_now();
        self.render(message, Severity::Debug, overwrite, &now)
    }
}

} // verus!

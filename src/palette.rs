use vstd::prelude::*;

verus! {

/// The terminal styles a log line can use.
#[derive(Clone, Copy, Debug, PartialEq, Eq, Structural)]
pub enum Colors {
    UNDERLINE,
    BLUE,
    BROWN,
    RED,
    BLACK,
    GREEN,
    YELLOW,
    MAGENTA,
    CYAN,
    WHITE,
    RESET,
}

/// The escape sequence `ESC [ <body> m`.
pub open spec fn sgr(body: Seq<char>) -> Seq<char> {
    seq!['\u{1b}', '['] + body + seq!['m']
}

impl Colors {
    /// The escape sequence of each style.
    pub open spec fn code(self) -> Seq<char> {
        match self {
            Colors::UNDERLINE => sgr(seq!['4']),
            Colors::BLUE => sgr(seq!['3', '4', ';', '1']),
            Colors::BROWN => sgr(seq!['0', ';', '3', '3']),
            Colors::RED => sgr(seq!['3', '1', ';', '1']),
            Colors::BLACK => sgr(seq!['3', '0', ';', '1']),
            Colors::GREEN => sgr(seq!['3', '2', ';', '1']),
            Colors::YELLOW => sgr(seq!['3', '3', ';', '1']),
            Colors::MAGENTA => sgr(seq!['3', '5', ';', '1']),
            Colors::CYAN => sgr(seq!['3', '6', ';', '1']),
            Colors::WHITE => sgr(seq!['3', '7', ';', '1']),
            Colors::RESET => sgr(seq!['0']),
        }
    }

    pub fn resolve(&self) -> (r: &'static str)
        ensures
            r@ == self.code(),
    {
        match self {
            Colors::UNDERLINE => {
                proof {
                    reveal_strlit("\u{001b}[4m");
                }
                "\u{001b}[4m"
            },
            Colors::BLUE => {
                proof {
                    reveal_strlit("\u{001b}[34;1m");
                }
                "\u{001b}[34;1m"
            },
            Colors::BROWN => {
                proof {
                    reveal_strlit("\u{001b}[0;33m");
                }
                "\u{001b}[0;33m"
            },
            Colors::RED => {
                proof {
                    reveal_strlit("\u{001b}[31;1m");
                }
                "\u{001b}[31;1m"
            },
            Colors::BLACK => {
                proof {
                    reveal_strlit("\u{001b}[30;1m");
                }
                "\u{001b}[30;1m"
            },
            Colors::GREEN => {
                proof {
                    reveal_strlit("\u{001b}[32;1m");
                }
                "\u{001b}[32;1m"
            },
            Colors::YELLOW => {
                proof {
                    reveal_strlit("\u{001b}[33;1m");
                }
                "\u{001b}[33;1m"
            },
            Colors::MAGENTA => {
                proof {
                    reveal_strlit("\u{001b}[35;1m");
                }
                "\u{001b}[35;1m"
            },
            Colors::CYAN => {
                proof {
                    reveal_strlit("\u{001b}[36;1m");
                }
                "\u{001b}[36;1m"
            },
            Colors::WHITE => {
                proof {
                    reveal_strlit("\u{001b}[37;1m");
                }
                "\u{001b}[37;1m"
            },
            Colors::RESET => {
                proof {
                    reveal_strlit("\u{001b}[0m");
                }
                "\u{001b}[0m"
            },
        }
    }
}

/// The escape sequence that fills the background behind a fatal title.
pub open spec fn fatal_background() -> Seq<char> {
    sgr(seq!['4', '1'])
}

pub fn fatal_highlight() -> (r: &'static str)
    ensures
        r@ == fatal_background(),
{
    proof {
        reveal_strlit("\u{001b}[41m");
    }
    "\u{001b}[41m"
}

} // verus!

use vstd::prelude::*;
use crate::clock::{Timestamp, padded, signed_padded};
use crate::logger::{Logger, Overwrite, Severity, pad_len, shown_title, spaces};
use crate::palette::{Colors, fatal_background};
use crate::stamp::{date_block, substitute};

verus! {

/// Without an override, a line carries the severity's own name as its title,
/// in the severity's configured color, between the configured brackets,
/// with the logger's timestamp pattern and no underline.
pub proof fn lemma_default_line(logger: Logger, message: Seq<char>, severity: Severity, now: Timestamp)
    ensures
        logger.line(message, severity, None, now) == date_block(logger.date@, now) + seq![' ', ' ']
            + logger.default_color(severity) + logger.symbols.0@ + shown_title(
            severity,
            severity.title(),
        ) + Colors::RESET.code() + logger.default_color(severity) + logger.symbols.1@ + spaces(
            pad_len(severity.title().len()),
        ) + message + Colors::RESET.code(),
{
    let color = logger.default_color(severity);
    let lhs = logger.line(message, severity, None, now);
    assert(severity.title().len() > 0);
    assert(lhs =~= date_block(logger.date@, now) + seq![' ', ' '] + color + logger.symbols.0@
        + shown_title(severity, severity.title()) + Colors::RESET.code() + color + logger.symbols.1@
        + spaces(pad_len(severity.title().len())) + message + Colors::RESET.code());
}

/// An empty override title leaves neither a title nor brackets: between the two
/// color codes stands only the fatal highlight, for fatal lines, and the
/// message follows after eight spaces.
pub proof fn lemma_suppressed_title(
    logger: Logger,
    message: Seq<char>,
    severity: Severity,
    overwrite: Overwrite,
    now: Timestamp,
)
    requires
        overwrite.title@.len() == 0,
    ensures
        ({
            let o = Some(overwrite);
            let color = logger.color_of(severity, o);
            let ul = Logger::underline_of(o);
            logger.line(message, severity, o, now) == date_block(logger.pattern_of(o), now)
                + seq![' ', ' '] + color + ul + (if severity == Severity::Fatal {
                fatal_background()
            } else {
                Seq::empty()
            }) + Colors::RESET.code() + color + spaces(8) + ul + message + Colors::RESET.code()
        }),
{
    let o = Some(overwrite);
    let color = logger.color_of(severity, o);
    let ul = Logger::underline_of(o);
    assert(pad_len(0) == 8);
    assert(logger.line(message, severity, o, now) =~= date_block(logger.pattern_of(o), now)
        + seq![' ', ' '] + color + ul + (if severity == Severity::Fatal {
        fatal_background()
    } else {
        Seq::empty()
    }) + Colors::RESET.code() + color + spaces(8) + ul + message + Colors::RESET.code());
}

/// With the date hidden, the timestamp block is only the white and reset codes:
/// no bracket and no time come before the two spaces and the rest of the line.
pub proof fn lemma_hidden_date(
    logger: Logger,
    message: Seq<char>,
    severity: Severity,
    overwrite: Overwrite,
    now: Timestamp,
)
    requires
        !overwrite.date.show,
    ensures
        logger.line(message, severity, Some(overwrite), now) == Colors::WHITE.code()
            + Colors::RESET.code() + seq![' ', ' '] + logger.body(message, severity, Some(overwrite)),
{
    let o = Some(overwrite);
    assert(logger.pattern_of(o).len() == 0);
    assert(date_block(logger.pattern_of(o), now) =~= Colors::WHITE.code() + Colors::RESET.code());
    assert(logger.line(message, severity, o, now) =~= Colors::WHITE.code() + Colors::RESET.code()
        + seq![' ', ' '] + logger.body(message, severity, o));
}

/// The padding is `8 - n + n / 2` spaces for a title of `n` characters, saturated
/// at zero: titles longer than sixteen characters get none.
pub proof fn lemma_padding_saturates(n: nat)
    ensures
        pad_len(n) as int == (if 8 - n + n / 2 >= 0 {
            8 - n + n / 2
        } else {
            0
        }),
        n > 16 ==> pad_len(n) == 0,
        forall|i: int| 0 <= i < pad_len(n) ==> #[trigger] spaces(pad_len(n))[i] == ' ',
{
}

/// A fatal line shows its title behind the filled background; a line of any other
/// severity shows it plain, with everything around the title built the same way.
pub proof fn lemma_fatal_highlight(
    logger: Logger,
    message: Seq<char>,
    severity: Severity,
    overwrite: Option<Overwrite>,
    now: Timestamp,
)
    ensures
        ({
            let color = logger.color_of(severity, overwrite);
            let title = Logger::title_of(severity, overwrite);
            let ul = Logger::underline_of(overwrite);
            let head = date_block(logger.pattern_of(overwrite), now) + seq![' ', ' '] + color
                + logger.open_of(severity, overwrite) + ul;
            let tail = Colors::RESET.code() + color + logger.close_of(severity, overwrite) + spaces(
                pad_len(title.len()),
            ) + ul + message + Colors::RESET.code();
            &&& severity == Severity::Fatal ==> logger.line(message, severity, overwrite, now)
                == head + fatal_background() + title + tail
            &&& severity != Severity::Fatal ==> logger.line(message, severity, overwrite, now)
                == head + title + tail
        }),
{
    let color = logger.color_of(severity, overwrite);
    let title = Logger::title_of(severity, overwrite);
    let ul = Logger::underline_of(overwrite);
    let head = date_block(logger.pattern_of(overwrite), now) + seq![' ', ' '] + color
        + logger.open_of(severity, overwrite) + ul;
    let tail = Colors::RESET.code() + color + logger.close_of(severity, overwrite) + spaces(
        pad_len(title.len()),
    ) + ul + message + Colors::RESET.code();
    if severity == Severity::Fatal {
        assert(logger.line(message, severity, overwrite, now) =~= head + fatal_background() + title
            + tail);
    } else {
        assert(logger.line(message, severity, overwrite, now) =~= head + title + tail);
    }
}

/// The timestamp block depends on the pattern and the time alone: at a frozen
/// time, any two renderings of one pattern are the same text.
pub proof fn lemma_date_repeatable(
    pattern: Seq<char>,
    now: Timestamp,
    first: Seq<char>,
    second: Seq<char>,
)
    requires
        first == date_block(pattern, now),
        second == date_block(pattern, now),
    ensures
        first == second,
{
}

/// `YY-MM-DD` becomes the year in four digits, then month and day in two,
/// separated by the dashes of the pattern.
pub proof fn lemma_date_tokens(now: Timestamp)
    ensures
        substitute(seq!['Y', 'Y', '-', 'M', 'M', '-', 'D', 'D'], now) == signed_padded(
            now.year as int,
            4,
        ) + seq!['-'] + padded(now.month as nat, 2) + seq!['-'] + padded(now.day as nat, 2),
{
    let p = seq!['Y', 'Y', '-', 'M', 'M', '-', 'D', 'D'];
    let p2 = seq!['-', 'M', 'M', '-', 'D', 'D'];
    let p3 = seq!['M', 'M', '-', 'D', 'D'];
    let p5 = seq!['-', 'D', 'D'];
    let p6 = seq!['D', 'D'];
    assert(p.skip(2) =~= p2);
    assert(p2.skip(1) =~= p3);
    assert(p3.skip(2) =~= p5);
    assert(p5.skip(1) =~= p6);
    assert(p6.skip(2) =~= Seq::<char>::empty());
    assert(substitute(Seq::<char>::empty(), now) =~= Seq::<char>::empty());
    assert(p6[0] == 'D' && p6[1] == 'D');
    assert(substitute(p6, now) =~= padded(now.day as nat, 2));
    assert(substitute(p5, now) =~= seq!['-'] + padded(now.day as nat, 2));
    assert(substitute(p3, now) =~= padded(now.month as nat, 2) + seq!['-'] + padded(now.day as nat, 2));
    assert(substitute(p2, now) =~= seq!['-'] + padded(now.month as nat, 2) + seq!['-'] + padded(
        now.day as nat,
        2,
    ));
    assert(substitute(p, now) =~= signed_padded(now.year as int, 4) + seq!['-'] + padded(
        now.month as nat,
        2,
    ) + seq!['-'] + padded(now.day as nat, 2));
}

} // verus!

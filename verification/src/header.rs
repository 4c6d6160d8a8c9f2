//! The layout of the startup banner.
//!
//! The banner shows the family's name in large letters and, to the right of it, the
//! module's name as a figure in the slanted FIGlet font, the bottom rows of both level.
//! The rows are laid out here; whoever prints them gives them their colours.

use crate::text::lines;
use crate::text::lines_of;
use crate::text::views;
use figlet_rs::FIGlet;
use vstd::prelude::*;
use vstd::utf8::encode_utf8;

verus! {

/// The family's name in large letters.
pub const BANNER: &'static str = r#"
      ___           ___         ___           ___     
     /\  \         /\__\       /\__\         /|  |    
    |::\  \       /:/ _/_     /:/ _/_       |:|  |    
    |:|:\  \     /:/ /\__\   /:/ /\__\      |:|  |    
  __|:|\:\  \   /:/ /:/  /  /:/ /:/ _/_   __|:|  |    
 /::::|_\:\__\ /:/_/:/  /  /:/_/:/ /\__\ /\ |:|__|____
 \:\~~\  \/__/ \:\/:/  /   \:\/:/ /:/  / \:\/:::::/__/
  \:\  \        \::/__/     \::/_/:/  /   \::/~~/~    
   \:\  \        \:\  \      \:\/:/  /     \:\~~\     
    \:\__\        \:\__\      \::/  /       \:\__\    
     \/__/         \/__/       \/__/         \/__/    "#;

/// The rows of the banner: for each row of `banner` that row and, beside it, the row
/// of `figure` that is as far from the bottom; an empty one where the figure is not
/// that tall.
pub open spec fn laid_out(banner: Seq<Seq<char>>, figure: Seq<Seq<char>>) -> Seq<
    (Seq<char>, Seq<char>),
> {
    Seq::new(
        banner.len(),
        |i: int|
            (
                banner[i],
                if figure.len() + i >= banner.len() {
                    figure[figure.len() + i - banner.len()]
                } else {
                    Seq::empty()
                },
            ),
    )
}

/// The rows `rows` with their texts as sequences of characters.
pub open spec fn row_views(rows: Seq<(String, String)>) -> Seq<(Seq<char>, Seq<char>)> {
    rows.map_values(|row: (String, String)| (row.0@, row.1@))
}

/// Lays the lines of `figure` out beside the lines of `banner`.
pub fn lay_out(banner: &str, figure: &str) -> (rows: Vec<(String, String)>)
    ensures
        row_views(rows@) == laid_out(lines_of(banner@), lines_of(figure@)),
{
    let left = lines(banner);
    let right = lines(figure);
    let ghost wanted = laid_out(lines_of(banner@), lines_of(figure@));
    assert(views(left@).len() == left@.len());
    assert(views(right@).len() == right@.len());
    let mut rows: Vec<(String, String)> = Vec::new();
    let mut at: usize = 0;
    while at < left.len()
        invariant
            at <= left@.len(),
            views(left@) == lines_of(banner@),
            views(right@) == lines_of(figure@),
            wanted == laid_out(lines_of(banner@), lines_of(figure@)),
            rows@.len() == at,
            forall|i: int| 0 <= i < at ==> (#[trigger] rows@[i].0@, rows@[i].1@) == wanted[i],
        decreases left@.len() - at,
    {
        let beside = if right.len() >= left.len() - at {
            right[right.len() - (left.len() - at)].clone()
        } else {
            String::new()
        };
        proof {
            assert(views(left@)[at as int] == left@[at as int]@);
            if right@.len() + at >= left@.len() {
                assert(views(right@)[right@.len() + at - left@.len()] == beside@);
            }
        }
        rows.push((left[at].clone(), beside));
        at = at + 1;
    }
    assert(row_views(rows@) =~= wanted);
    rows
}

/// The figure that the slanted FIGlet font makes of a message; none where the font
/// makes nothing of it.
pub uninterp spec fn slant_figure(message: Seq<char>) -> Option<Seq<char>>;

/// The view of the text in `text`, if there is one.
pub open spec fn text_view(text: Option<String>) -> Option<Seq<char>> {
    match text {
        Some(t) => Some(t@),
        None => None,
    }
}

/// Renders `message` in the slanted FIGlet font.
///
/// Trusted: this is `FIGlet::slant`, `FIGlet::convert` and the figure's `to_string`,
/// whose result depends on the message alone; the contract gives that result its name.
/// It is `None` where the font does not load or `convert` returns nothing.
#[verifier::external_body]
fn slant(message: &str) -> (figure: Option<String>)
    ensures
        text_view(figure) == slant_figure(message@),
{
    Some(FIGlet::slant().ok()?.convert(message)?.to_string())
}

/// The rows with their texts as sequences of characters, if there are rows.
pub open spec fn rows_view(rows: Option<Vec<(String, String)>>) -> Option<
    Seq<(Seq<char>, Seq<char>)>,
> {
    match rows {
        Some(r) => Some(row_views(r@)),
        None => None,
    }
}

/// The rows of the banner for `figure`, if there is a figure.
pub open spec fn rows_for(figure: Option<Seq<char>>) -> Option<Seq<(Seq<char>, Seq<char>)>> {
    match figure {
        Some(f) => Some(laid_out(lines_of(BANNER@), lines_of(f))),
        None => None,
    }
}

/// The rows of the banner of module `module`: the family's name and, beside it, the
/// module's name as a figure. None where no figure can be made of the name.
pub fn header_rows(module: &str) -> (rows: Option<Vec<(String, String)>>)
    ensures
        rows_view(rows) == rows_for(slant_figure(module@)),
{
    match slant(module) {
        Some(figure) => Some(lay_out(BANNER, figure.as_str())),
        None => None,
    }
}

/// The rows `rows`, each with a line feed behind it, and one line feed more.
pub open spec fn assembled(rows: Seq<Seq<char>>) -> Seq<char>
    decreases rows.len(),
{
    if rows.len() == 0 {
        seq!['\n']
    } else {
        rows.first() + seq!['\n'] + assembled(rows.drop_first())
    }
}

/// The bytes of the banner whose rows, in their colours, are `rows`.
pub fn assemble(rows: &Vec<String>) -> (bytes: Vec<u8>)
    ensures
        bytes@ == encode_utf8(assembled(views(rows@))),
{
    proof {
        reveal_strlit("\n");
        assert("\n"@ == seq!['\n']);
    }
    let mut text = String::from_str("\n");
    let mut at: usize = rows.len();
    assert(views(rows@).skip(at as int) == Seq::<Seq<char>>::empty());
    while at > 0
        invariant
            at <= rows@.len(),
            "\n"@ == seq!['\n'],
            text@ == assembled(views(rows@).skip(at as int)),
        decreases at,
    {
        at = at - 1;
        proof {
            let rest = views(rows@).skip(at as int);
            assert(rest.first() == rows@[at as int]@);
            assert(rest.drop_first() == views(rows@).skip(at + 1));
        }
        text = rows[at].clone().concat("\n").concat(text.as_str());
    }
    assert(views(rows@).skip(0) == views(rows@));
    text.as_str().as_bytes_vec()
}

/// The start of the line that follows the banner: `This is MFEK`.
pub open spec fn about_start() -> Seq<char> {
    seq!['T', 'h', 'i', 's', ' ', 'i', 's', ' ', 'M', 'F', 'E', 'K']
}

/// What stands before the time of compilation: `, compiled @ `.
pub open spec fn compiled_start() -> Seq<char> {
    seq![',', ' ', 'c', 'o', 'm', 'p', 'i', 'l', 'e', 'd', ' ', '@', ' ']
}

/// The version of the module, behind a space, and the code name of the release in
/// brackets and quotation marks where it has one.
pub open spec fn version_part(version: Seq<char>, codename: Option<Seq<char>>) -> Seq<char> {
    match codename {
        Some(name) => seq![' '] + version + seq![' ', '(', '\u{201c}'] + name + seq![
            '\u{201d}',
            ')',
        ],
        None => seq![' '] + version,
    }
}

/// The end of the line: the time of compilation where it is known, and a full stop.
pub open spec fn compiled_part(compiled: Option<Seq<char>>) -> Seq<char> {
    match compiled {
        Some(time) => compiled_start() + time + seq!['.'],
        None => seq!['.'],
    }
}

/// The line that follows the banner of a graphical module: its name, its version and,
/// where they are known, the code name of the release and the time of compilation.
pub open spec fn about(
    module: Seq<char>,
    version: Seq<char>,
    codename: Option<Seq<char>>,
    compiled: Option<Seq<char>>,
) -> Seq<char> {
    about_start() + module + version_part(version, codename) + compiled_part(compiled) + seq![
        '\n',
    ]
}

/// The view of the text in `text`, if there is one.
pub open spec fn str_view(text: Option<&str>) -> Option<Seq<char>> {
    match text {
        Some(t) => Some(t@),
        None => None,
    }
}

/// The line that follows the banner of a graphical module.
pub fn about_line(module: &str, version: &str, codename: Option<&str>, compiled: Option<&str>) -> (line:
    String)
    ensures
        line@ == about(module@, version@, str_view(codename), str_view(compiled)),
{
    proof {
        reveal_strlit("This is MFEK");
        reveal_strlit(" ");
        reveal_strlit(" (\u{201c}");
        reveal_strlit("\u{201d})");
        reveal_strlit(", compiled @ ");
        reveal_strlit(".");
        reveal_strlit("\n");
        assert("This is MFEK"@ == about_start());
        assert(" "@ == seq![' ']);
        assert(" (\u{201c}"@ == seq![' ', '(', '\u{201c}']);
        assert("\u{201d})"@ == seq!['\u{201d}', ')']);
        assert(", compiled @ "@ == compiled_start());
        assert("."@ == seq!['.']);
        assert("\n"@ == seq!['\n']);
    }
    let mut line = String::from_str("This is MFEK").concat(module).concat(" ").concat(version);
    assert(line@ == about_start() + module@ + (seq![' '] + version@));
    match codename {
        Some(name) => {
            line = line.concat(" (\u{201c}").concat(name).concat("\u{201d})");
            assert(line@ == about_start() + module@ + version_part(version@, Some(name@)));
        },
        None => {},
    }
    match compiled {
        Some(time) => {
            line = line.concat(", compiled @ ").concat(time).concat(".");
            assert(line@ == about_start() + module@ + version_part(version@, str_view(codename))
                + compiled_part(Some(time@)));
        },
        None => {
            line = line.concat(".");
        },
    }
    line.concat("\n")
}

/// Whether `c` is shown in colour in the time of compilation: whether it is outside
/// ASCII, and so takes more than one byte.
pub fn is_wide(c: char) -> (wide: bool)
    ensures
        wide == (c as u32 >= 0x80),
{
    c as u32 >= 0x80
}

/// Whether the banner is shown: not where the user has switched it off, and only on
/// a terminal.
pub fn shows_header(suppressed: bool, terminal: bool) -> (shown: bool)
    ensures
        shown == (!suppressed && terminal),
{
    !suppressed && terminal
}

} // verus!

//! Discovery of companion executables and negotiation of their version.
//!
//! A companion module `m` may be installed under several file names. Discovery tries
//! each name in each search directory, in a fixed order, and stops at the first regular
//! file that may be executed. That executable is then asked for its version, and the
//! last word it prints is compared with the version the caller expects.

use crate::text::decode;
use crate::text::is_blank;
use crate::text::is_space;
use crate::text::is_word;
use crate::text::lemma_blank_has_no_token;
use crate::text::lemma_last_token_is_final_word;
use crate::text::last_token;
use crate::text::last_word;
use crate::text::views;
use vstd::prelude::*;
use vstd::utf8::decode_utf8;
use vstd::utf8::encode_utf8;
use vstd::utf8::valid_utf8;

verus! {

/// The prefix of a decorated name: `MFEK`.
pub open spec fn family() -> Seq<char> {
    seq!['M', 'F', 'E', 'K']
}

/// The prefix of a hyphenated name: `mfek-`.
pub open spec fn family_hyphen() -> Seq<char> {
    seq!['m', 'f', 'e', 'k', '-']
}

/// The extension of an executable where the platform asks for one: `.exe`.
pub open spec fn extension() -> Seq<char> {
    seq!['.', 'e', 'x', 'e']
}

/// The file names under which module `module` is looked for, in the order in which
/// they are tried: decorated, hyphenated and, where executables carry an extension,
/// both again with the extension.
pub open spec fn candidate_names(module: Seq<char>, suffixed: bool) -> Seq<Seq<char>> {
    let plain = seq![family() + module, family_hyphen() + module];
    if suffixed {
        plain + seq![family() + module + extension(), family_hyphen() + module + extension()]
    } else {
        plain
    }
}

/// Whether `part` occurs in `whole` as a run of consecutive characters.
pub open spec fn occurs_in(part: Seq<char>, whole: Seq<char>) -> bool {
    exists|at: int|
        0 <= at && at + part.len() <= whole.len() && #[trigger] whole.subrange(
            at,
            at + part.len(),
        ) == part
}

/// The candidate names of `module`, with the executable extension where `suffixed`.
pub fn binaries_for(module: &str, suffixed: bool) -> (names: Vec<String>)
    ensures
        views(names@) == candidate_names(module@, suffixed),
{
    proof {
        reveal_strlit("MFEK");
        reveal_strlit("mfek-");
        reveal_strlit(".exe");
        assert("MFEK"@ == family());
        assert("mfek-"@ == family_hyphen());
        assert(".exe"@ == extension());
    }
    let mut names: Vec<String> = Vec::new();
    names.push(String::from_str("MFEK").concat(module));
    names.push(String::from_str("mfek-").concat(module));
    if suffixed {
        names.push(String::from_str("MFEK").concat(module).concat(".exe"));
        names.push(String::from_str("mfek-").concat(module).concat(".exe"));
    }
    assert(views(names@) == candidate_names(module@, suffixed));
    names
}

/// The candidate names of `module` on a platform whose executables carry no extension.
pub fn binaries(module: &str) -> (names: Vec<String>)
    ensures
        views(names@) == candidate_names(module@, false),
{
    binaries_for(module, false)
}

/// There is always a name to try, the names depend on nothing but the module and the
/// platform, and each of them holds the module's name.
pub proof fn lemma_names_hold_module(module: Seq<char>, suffixed: bool)
    ensures
        candidate_names(module, suffixed).len() == if suffixed { 4nat } else { 2nat },
        forall|i: int|
            0 <= i < candidate_names(module, suffixed).len() ==> occurs_in(
                module,
                #[trigger] candidate_names(module, suffixed)[i],
            ),
{
    let names = candidate_names(module, suffixed);
    let n = module.len() as int;
    assert forall|i: int| 0 <= i < names.len() implies occurs_in(module, #[trigger] names[i]) by {
        if i == 0 || i == 2 {
            assert(names[i].subrange(4, 4 + n) == module);
        } else {
            assert(names[i].subrange(5, 5 + n) == module);
        }
    }
}

/// The directories that are searched, in the order of the search: the entries of the
/// search path as they stand in it, then the directory of the running executable where
/// it is known. Nothing is left out for occurring twice.
pub fn search_directories<P>(path_entries: Vec<P>, exe_dir: Option<P>) -> (dirs: Vec<P>)
    ensures
        dirs@ == path_entries@ + (match exe_dir {
            Some(dir) => seq![dir],
            None => Seq::empty(),
        }),
{
    let mut dirs = path_entries;
    match exe_dir {
        Some(dir) => {
            dirs.push(dir);
        },
        None => {},
    }
    dirs
}

/// What the filesystem says of one candidate path.
#[derive(Debug, Clone, Copy, PartialEq, Eq)]
pub enum Probed {
    /// The metadata query failed: nothing is there, or it may not be looked at.
    Missing,
    /// Something is there.
    Found {
        /// Whether it is a regular file.
        regular_file: bool,
        /// Its permission bits, where the platform has them.
        mode: u32,
    },
}

/// The permission bits that mark a file as executable by its owner, its group or others.
pub const EXECUTE_BITS: u32 = 0o111;

impl Probed {
    /// Whether the candidate can be run: a regular file and, where the platform keeps
    /// permission bits (`posix`), one with an execute bit set.
    pub open spec fn qualifies(self, posix: bool) -> bool {
        match self {
            Probed::Missing => false,
            Probed::Found { regular_file, mode } => regular_file && (!posix || mode & EXECUTE_BITS
                != 0),
        }
    }

    /// Whether the candidate can be run.
    pub fn passes(&self, posix: bool) -> (pass: bool)
        ensures
            pass == self.qualifies(posix),
    {
        match self {
            Probed::Missing => false,
            Probed::Found { regular_file, mode } => *regular_file && (!posix || *mode & EXECUTE_BITS
                != 0),
        }
    }
}

/// Where a search at probe number `position` of `total` stands after it has seen
/// `probed`: it stays where a candidate qualifies or nothing is left, and moves on by
/// one otherwise.
pub open spec fn position_after(position: nat, total: nat, probed: Probed, posix: bool) -> nat {
    if position < total && !probed.qualifies(posix) {
        position + 1
    } else {
        position
    }
}

/// Where a search that starts at `position` comes to rest when the filesystem answers
/// its probes with `observed`, one answer for each probe it makes, in order: at the
/// first probe after which it does not move on.
pub open spec fn rest_position(
    position: nat,
    total: nat,
    observed: Seq<Probed>,
    posix: bool,
) -> nat
    decreases observed.len(),
{
    if observed.len() == 0 {
        position
    } else {
        let next = position_after(position, total, observed.first(), posix);
        if next == position {
            position
        } else {
            rest_position(next, total, observed.drop_first(), posix)
        }
    }
}

/// A search that finds nothing to run under any candidate name in any directory ends
/// with every pair tried: the module is not found.
pub proof fn lemma_nothing_qualifies(position: nat, total: nat, observed: Seq<Probed>, posix: bool)
    requires
        position <= total,
        position + observed.len() >= total,
        forall|i: int| 0 <= i < observed.len() ==> !(#[trigger] observed[i]).qualifies(posix),
    ensures
        rest_position(position, total, observed, posix) == total,
    decreases observed.len(),
{
    if observed.len() > 0 && position < total {
        lemma_nothing_qualifies(position + 1, total, observed.drop_first(), posix);
    }
}

/// The first candidate that can be run wins: the search passes over those before it
/// and rests on it, whatever the later ones are.
pub proof fn lemma_first_hit_wins(
    position: nat,
    total: nat,
    observed: Seq<Probed>,
    posix: bool,
    hit: int,
)
    requires
        0 <= hit < observed.len(),
        position + hit < total,
        forall|i: int| 0 <= i < hit ==> !(#[trigger] observed[i]).qualifies(posix),
        observed[hit].qualifies(posix),
    ensures
        rest_position(position, total, observed, posix) == position + hit,
    decreases hit,
{
    if hit > 0 {
        lemma_first_hit_wins(position + 1, total, observed.drop_first(), posix, hit - 1);
    }
}

/// Where permission bits exist, a regular file without an execute bit is passed over,
/// and the search goes on with the next candidate.
pub proof fn lemma_not_executable_is_skipped(
    position: nat,
    total: nat,
    observed: Seq<Probed>,
    mode: u32,
)
    requires
        position < total,
        observed.len() > 0,
        observed.first() == (Probed::Found { regular_file: true, mode }),
        mode & EXECUTE_BITS == 0,
    ensures
        !observed.first().qualifies(true),
        rest_position(position, total, observed, true) == rest_position(
            position + 1,
            total,
            observed.drop_first(),
            true,
        ),
{
}

/// The walk over every pair of a search directory and a candidate name: directory by
/// directory in the given order, and within a directory name by name.
pub struct Search {
    names: Vec<String>,
    dirs: usize,
    dir: usize,
    name: usize,
}

impl Search {
    #[verifier::type_invariant]
    spec fn inv(self) -> bool {
        &&& self.names@.len() > 0
        &&& self.dir <= self.dirs
        &&& self.name < self.names@.len()
        &&& self.dir == self.dirs ==> self.name == 0
    }

    /// The candidate names, in the order in which they are tried.
    pub closed spec fn names(self) -> Seq<Seq<char>> {
        views(self.names@)
    }

    /// The number of search directories.
    pub closed spec fn dirs(self) -> nat {
        self.dirs as nat
    }

    /// The number of probes made so far that found nothing to run.
    pub closed spec fn position(self) -> nat {
        (self.dir * self.names@.len() + self.name) as nat
    }

    /// The number of probes a search makes that finds nothing.
    pub open spec fn total(self) -> nat {
        self.dirs() * self.names().len()
    }

    /// The search directory of the probe that is due, as an index.
    pub open spec fn due_dir(self) -> nat {
        self.position() / self.names().len()
    }

    /// The candidate name of the probe that is due.
    pub open spec fn due_name(self) -> Seq<char> {
        self.names()[(self.position() % self.names().len()) as int]
    }

    /// A search for `module` in `dirs` directories, at its first probe.
    pub fn new(module: &str, dirs: usize, suffixed: bool) -> (search: Search)
        ensures
            search.names() == candidate_names(module@, suffixed),
            search.dirs() == dirs,
            search.position() == 0,
    {
        let names = binaries_for(module, suffixed);
        proof {
            lemma_names_hold_module(module@, suffixed);
            assert(views(names@).len() == names@.len());
        }
        Search { names, dirs, dir: 0, name: 0 }
    }

    /// The probe that is due: the index of a search directory and the file name to
    /// look for in it. `None` once every pair has been tried.
    pub fn current(&self) -> (due: Option<(usize, String)>)
        ensures
            self.names().len() > 0,
            self.position() <= self.total(),
            due is Some <==> self.position() < self.total(),
            due matches Some((dir, name)) ==> dir == self.due_dir() && name@ == self.due_name(),
    {
        proof {
            use_type_invariant(self);
            self.lemma_position();
        }
        if self.dir < self.dirs {
            Some((self.dir, self.names[self.name].clone()))
        } else {
            None
        }
    }

    /// Takes in what the filesystem said of the probe that was due. Returns whether the
    /// candidate can be run; the search then rests on it. Otherwise the next probe is due.
    pub fn observe(&mut self, probed: &Probed, posix: bool) -> (hit: bool)
        ensures
            hit == (old(self).position() < old(self).total() && probed.qualifies(posix)),
            final(self).names() == old(self).names(),
            final(self).dirs() == old(self).dirs(),
            final(self).position() == position_after(
                old(self).position(),
                old(self).total(),
                *probed,
                posix,
            ),
    {
        proof {
            use_type_invariant(&*self);
            self.lemma_position();
        }
        if self.dir >= self.dirs {
            return false;
        }
        if probed.passes(posix) {
            return true;
        }
        let ghost before = *self;
        let count = self.names.len();
        if self.name + 1 < count {
            self.name = self.name + 1;
        } else {
            self.name = 0;
            self.dir = self.dir + 1;
        }
        proof {
            assert(self.position() == before.position() + 1) by (nonlinear_arith)
                requires
                    self.names@.len() == before.names@.len(),
                    before.name < before.names@.len(),
                    (self.dir == before.dir && self.name == before.name + 1) || (self.dir
                        == before.dir + 1 && self.name == 0 && before.name + 1
                        == before.names@.len()),
                    self.position() == self.dir * self.names@.len() + self.name,
                    before.position() == before.dir * before.names@.len() + before.name,
            ;
        }
        false
    }

    /// The position counts whole directories and then names.
    proof fn lemma_position(self)
        requires
            self.inv(),
        ensures
            self.names().len() == self.names@.len(),
            self.position() <= self.total(),
            self.position() < self.total() <==> self.dir < self.dirs,
            self.due_dir() == self.dir,
            self.position() % self.names().len() == self.name,
    {
        let m = self.names@.len() as int;
        let d = self.dir as int;
        let n = self.name as int;
        assert(self.names().len() == m);
        vstd::arithmetic::div_mod::lemma_fundamental_div_mod_converse(d * m + n, m, d, n);
        assert(d * m + n <= self.dirs * m && (d * m + n < self.dirs * m <==> d < self.dirs))
            by (nonlinear_arith)
            requires
                0 <= d <= self.dirs,
                0 <= n < m,
                d == self.dirs ==> n == 0,
        ;
    }
}

/// How a located companion executable compares with the version the caller expects.
#[derive(Debug, Clone, PartialEq)]
pub enum Version<'caller> {
    /// The executable reported exactly the expected version, held here.
    UpToDate(&'caller str),
    /// The executable reported the version held here, which is another than the
    /// expected one, or none that could be read.
    OutOfDate(Option<String>),
}

/// What a `Version` says, with its texts as sequences of characters.
pub enum Standing {
    /// See `Version::UpToDate`.
    UpToDate(Seq<char>),
    /// See `Version::OutOfDate`.
    OutOfDate(Option<Seq<char>>),
}

impl View for Version<'_> {
    type V = Standing;

    open spec fn view(&self) -> Standing {
        match self {
            Version::UpToDate(expected) => Standing::UpToDate(expected@),
            Version::OutOfDate(Some(observed)) => Standing::OutOfDate(Some(observed@)),
            Version::OutOfDate(None) => Standing::OutOfDate(None),
        }
    }
}

impl Version<'_> {
    /// Whether the located executable is the one the caller expects.
    pub fn matches(&self) -> (up_to_date: bool)
        ensures
            up_to_date == (self@ is UpToDate),
    {
        match self {
            Self::UpToDate(_) => true,
            Self::OutOfDate(_) => false,
        }
    }
}

/// What came of asking an executable for its version.
#[derive(Debug, Clone, PartialEq)]
pub enum Reading {
    /// The executable could not be started: no version information.
    Unavailable,
    /// It printed nothing that a version can be read from: something that is not text,
    /// or text without a word. No readable version information.
    Unreadable,
    /// It printed text; this is the last word of it.
    Reported(String),
}

/// What a `Reading` says, with its text as a sequence of characters.
pub enum ReadingView {
    /// See `Reading::Unavailable`.
    Unavailable,
    /// See `Reading::Unreadable`.
    Unreadable,
    /// See `Reading::Reported`.
    Reported(Seq<char>),
}

impl View for Reading {
    type V = ReadingView;

    open spec fn view(&self) -> ReadingView {
        match self {
            Reading::Unavailable => ReadingView::Unavailable,
            Reading::Unreadable => ReadingView::Unreadable,
            Reading::Reported(observed) => ReadingView::Reported(observed@),
        }
    }
}

/// The reading that the standard output `output` of a version query amounts to; `None`
/// stands for an executable that could not be started. The output reports its last
/// word; output that is not text, or that holds no word, cannot be read.
pub open spec fn reading_of(output: Option<Seq<u8>>) -> ReadingView {
    match output {
        None => ReadingView::Unavailable,
        Some(bytes) => if valid_utf8(bytes) && last_token(decode_utf8(bytes)).len() > 0 {
            ReadingView::Reported(last_token(decode_utf8(bytes)))
        } else {
            ReadingView::Unreadable
        },
    }
}

/// How `reading` compares with the version `expected`: up to date exactly when a word
/// was reported and equals it, character for character. An empty word is no version.
pub open spec fn standing_of(reading: ReadingView, expected: Seq<char>) -> Standing {
    match reading {
        ReadingView::Reported(observed) => if observed.len() == 0 {
            Standing::OutOfDate(None)
        } else if observed == expected {
            Standing::UpToDate(expected)
        } else {
            Standing::OutOfDate(Some(observed))
        },
        _ => Standing::OutOfDate(None),
    }
}

/// The bytes of `output`, if there are any.
pub open spec fn bytes_of(output: Option<&[u8]>) -> Option<Seq<u8>> {
    match output {
        Some(bytes) => Some(bytes@),
        None => None,
    }
}

/// Reads the standard output of a version query; `None` where the executable could not
/// be started.
pub fn read_version(output: Option<&[u8]>) -> (reading: Reading)
    ensures
        reading@ == reading_of(bytes_of(output)),
{
    match output {
        None => Reading::Unavailable,
        Some(bytes) => match decode(bytes) {
            None => Reading::Unreadable,
            Some(text) => {
                let word = last_word(text);
                if word.as_str().unicode_len() == 0 {
                    Reading::Unreadable
                } else {
                    Reading::Reported(word)
                }
            },
        },
    }
}

/// Compares what an executable reported with the version the caller expects.
pub fn judge<'caller>(reading: Reading, expected: &'caller str) -> (version: Version<'caller>)
    ensures
        version@ == standing_of(reading@, expected@),
{
    match reading {
        Reading::Reported(observed) => {
            if observed.as_str().unicode_len() == 0 {
                Version::OutOfDate(None)
            } else if observed == expected.to_owned() {
                Version::UpToDate(expected)
            } else {
                Version::OutOfDate(Some(observed))
            }
        },
        _ => Version::OutOfDate(None),
    }
}

/// Classifies a located executable from the standard output of its version query
/// (`None` where it could not be started) and the version the caller expects.
pub fn negotiate<'caller>(output: Option<&[u8]>, expected: &'caller str) -> (version: Version<
    'caller,
>)
    ensures
        version@ == standing_of(reading_of(bytes_of(output)), expected@),
{
    judge(read_version(output), expected)
}

/// An executable that prints its version as the last word of its output, after
/// whitespace or alone, and possibly with whitespace behind it, is up to date for a
/// caller that expects exactly that word, and out of date with that word for a caller
/// that expects any other.
pub proof fn lemma_printed_version_decides(
    head: Seq<char>,
    word: Seq<char>,
    tail: Seq<char>,
    expected: Seq<char>,
)
    requires
        head.len() == 0 || is_space(head.last()),
        is_word(word),
        is_blank(tail),
    ensures
        reading_of(Some(encode_utf8(head + word + tail))) == ReadingView::Reported(word),
        word == expected ==> standing_of(
            reading_of(Some(encode_utf8(head + word + tail))),
            expected,
        ) == Standing::UpToDate(expected),
        word != expected ==> standing_of(
            reading_of(Some(encode_utf8(head + word + tail))),
            expected,
        ) == Standing::OutOfDate(Some(word)),
{
    let text = head + word + tail;
    vstd::utf8::encode_utf8_valid_utf8(text);
    vstd::utf8::encode_utf8_decode_utf8(text);
    lemma_last_token_is_final_word(head, word, tail);
}

/// A located executable is held up to date exactly when it started, its output is
/// text, that text has a last word, and the word equals the expected version; the
/// version held is then the expected one.
pub proof fn lemma_up_to_date_means_equal(output: Option<Seq<u8>>, expected: Seq<char>)
    ensures
        standing_of(reading_of(output), expected) is UpToDate <==> (output matches Some(bytes)
            && valid_utf8(bytes) && last_token(decode_utf8(bytes)).len() > 0 && last_token(
            decode_utf8(bytes),
        ) == expected),
        standing_of(reading_of(output), expected) matches Standing::UpToDate(held) ==> held
            == expected && expected.len() > 0,
{
}

/// Output that holds nothing but whitespace, or nothing at all, reports no version: the
/// executable is out of date whatever version is expected, the empty one too.
pub proof fn lemma_blank_output_is_out_of_date(text: Seq<char>, expected: Seq<char>)
    requires
        is_blank(text),
    ensures
        reading_of(Some(encode_utf8(text))) == ReadingView::Unreadable,
        standing_of(reading_of(Some(encode_utf8(text))), expected) == Standing::OutOfDate(None),
{
    vstd::utf8::encode_utf8_valid_utf8(text);
    vstd::utf8::encode_utf8_decode_utf8(text);
    lemma_blank_has_no_token(text);
}

} // verus!

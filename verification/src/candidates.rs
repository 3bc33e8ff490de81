//! Candidate enumeration: which disks a UUID selector is looked for on.
//!
//! Where the platform exposes its storage as namespaces, the daemon lists the
//! root, keeps the namespaces whose name begins with the device prefix, and
//! lists each of them. The listing itself is the platform's; what to keep of
//! it is decided here.

use crate::notes::{
    found_path, found_path_text, found_scheme, found_scheme_text, lemma_texts_push, list_failed,
    list_failed_text, no_lines, one_line, schemes_failed, schemes_failed_text, texts,
};
use vstd::prelude::*;
use vstd::string::{StrSliceExecFns, StringExecFns};

verus! {

/// How many times `mark` stands at the front of `text` without a gap.
pub open spec fn leading(text: Seq<char>, mark: char) -> nat
    decreases text.len(),
{
    if text.len() > 0 && text[0] == mark {
        1 + leading(text.drop_first(), mark)
    } else {
        0
    }
}

/// How many times `mark` stands at the end of `text` without a gap.
pub open spec fn trailing(text: Seq<char>, mark: char) -> nat
    decreases text.len(),
{
    if text.len() > 0 && text.last() == mark {
        1 + trailing(text.drop_last(), mark)
    } else {
        0
    }
}

/// `text` without the run of `mark` at its front.
pub open spec fn trim_start(text: Seq<char>, mark: char) -> Seq<char> {
    text.skip(leading(text, mark) as int)
}

/// `text` without the run of `mark` at its end.
pub open spec fn trim_end(text: Seq<char>, mark: char) -> Seq<char> {
    text.take(text.len() - trailing(text, mark))
}

/// The name of the namespace behind a root entry: the entry without leading
/// colons, and then without slashes at either end.
pub open spec fn scheme_name(entry: Seq<char>) -> Seq<char> {
    trim_end(trim_start(trim_start(entry, ':'), '/'), '/')
}

/// Whether a namespace name begins with the device prefix.
pub open spec fn is_disk_scheme(name: Seq<char>) -> bool {
    "disk"@.is_prefix_of(name)
}

/// A run of `mark` that ends at a different character, or at the end of the
/// text, is the whole leading run.
pub proof fn lemma_leading(text: Seq<char>, mark: char, run: nat)
    requires
        run <= text.len(),
        forall|k: int| 0 <= k < run ==> text[k] == mark,
        run < text.len() ==> text[run as int] != mark,
    ensures
        leading(text, mark) == run,
    decreases run,
{
    if run > 0 {
        lemma_leading(text.drop_first(), mark, (run - 1) as nat);
    }
}

/// A run of `mark` that begins after a different character, or at the start
/// of the text, is the whole trailing run.
pub proof fn lemma_trailing(text: Seq<char>, mark: char, run: nat)
    requires
        run <= text.len(),
        forall|k: int| text.len() - run <= k < text.len() ==> text[k] == mark,
        run < text.len() ==> text[text.len() - run - 1] != mark,
    ensures
        trailing(text, mark) == run,
    decreases run,
{
    if run > 0 {
        lemma_trailing(text.drop_last(), mark, (run - 1) as nat);
    }
}

/// The first position at or after `from` at which `text` does not hold `mark`.
fn skip_run(text: &str, from: usize, mark: char) -> (at: usize)
    requires
        from <= text@.len(),
    ensures
        from <= at <= text@.len(),
        at - from == leading(text@.skip(from as int), mark),
{
    let len = text.unicode_len();
    let mut at = from;
    while at < len && text.get_char(at) == mark
        invariant
            len == text@.len(),
            from <= at <= len,
            forall|k: int| from <= k < at ==> text@[k] == mark,
        decreases len - at,
    {
        at += 1;
    }
    proof {
        lemma_leading(text@.skip(from as int), mark, (at - from) as nat);
    }
    at
}

/// The end of `text` once the run of `mark` at its end is cut off, but never
/// before `from`.
fn cut_run(text: &str, from: usize, mark: char) -> (end: usize)
    requires
        from <= text@.len(),
    ensures
        from <= end <= text@.len(),
        text@.len() - end == trailing(text@.skip(from as int), mark),
{
    let len = text.unicode_len();
    let mut end = len;
    while end > from && text.get_char(end - 1) == mark
        invariant
            len == text@.len(),
            from <= end <= len,
            forall|k: int| end <= k < len ==> text@[k] == mark,
        decreases end,
    {
        end -= 1;
    }
    proof {
        lemma_trailing(text@.skip(from as int), mark, (len - end) as nat);
    }
    end
}

/// Computes the namespace name of a root entry.
pub fn scheme_of(entry: &str) -> (name: String)
    ensures
        name@ == scheme_name(entry@),
{
    let colons = skip_run(entry, 0, ':');
    let start = skip_run(entry, colons, '/');
    let end = cut_run(entry, start, '/');
    proof {
        let text = entry@;
        assert(text.skip(0) =~= text);
        assert(trim_start(text, ':') =~= text.skip(colons as int));
        assert(text.skip(colons as int).skip(start - colons) =~= text.skip(start as int));
        assert(text.skip(start as int).take(end - start) =~= text.subrange(
            start as int,
            end as int,
        ));
    }
    String::from_str(entry.substring_char(start, end))
}

/// Tells whether a namespace name begins with the device prefix.
pub fn names_disk(name: &str) -> (yes: bool)
    ensures
        yes == is_disk_scheme(name@),
{
    proof {
        reveal_strlit("disk");
    }
    if name.unicode_len() < 4 {
        return false;
    }
    let yes = name.get_char(0) == 'd' && name.get_char(1) == 'i' && name.get_char(2) == 's'
        && name.get_char(3) == 'k';
    proof {
        if yes {
            assert("disk"@ =~= name@.subrange(0, 4));
        } else {
            assert("disk"@[0] == 'd' && "disk"@[1] == 'i' && "disk"@[2] == 's' && "disk"@[3]
                == 'k');
        }
    }
    yes
}

/// What listing one directory of the platform gave.
#[derive(Clone, Debug, PartialEq, Eq)]
pub enum Listing {
    /// The directory could not be listed; the text says why.
    Failed(String),
    /// The entries in the order listed; `None` stands for an entry whose path
    /// could not be read as text.
    Entries(Vec<Option<String>>),
}

/// The mathematical value of a [`Listing`].
pub enum ListingView {
    Failed(Seq<char>),
    Entries(Seq<Option<Seq<char>>>),
}

/// The texts of a list of entries, in order.
pub open spec fn entry_texts(entries: Seq<Option<String>>) -> Seq<Option<Seq<char>>> {
    Seq::new(
        entries.len(),
        |i: int|
            match entries[i] {
                Some(path) => Some(path@),
                None => None,
            },
    )
}

impl View for Listing {
    type V = ListingView;

    open spec fn view(&self) -> ListingView {
        match *self {
            Listing::Failed(why) => ListingView::Failed(why@),
            Listing::Entries(entries) => ListingView::Entries(entry_texts(entries@)),
        }
    }
}

/// The namespaces to look for disks in, with the log of finding them.
#[derive(Clone, Debug, PartialEq, Eq)]
pub struct Schemes {
    /// The directory of each namespace, in the order found.
    pub names: Vec<String>,
    /// The lines to append to the log.
    pub lines: Vec<String>,
}

/// The directory of a namespace: its name and a colon.
pub open spec fn scheme_directory(name: Seq<char>) -> Seq<char> {
    name + ":"@
}

/// The directories of the disk namespaces among root entries, in order.
pub open spec fn scheme_directories(entries: Seq<Option<Seq<char>>>) -> Seq<Seq<char>>
    decreases entries.len(),
{
    if entries.len() == 0 {
        Seq::empty()
    } else {
        let before = scheme_directories(entries.drop_last());
        match entries.last() {
            Some(entry) if is_disk_scheme(scheme_name(entry)) => before.push(
                scheme_directory(scheme_name(entry)),
            ),
            _ => before,
        }
    }
}

/// The log lines for the disk namespaces among root entries, in order.
pub open spec fn scheme_lines(entries: Seq<Option<Seq<char>>>) -> Seq<Seq<char>>
    decreases entries.len(),
{
    if entries.len() == 0 {
        Seq::empty()
    } else {
        let before = scheme_lines(entries.drop_last());
        match entries.last() {
            Some(entry) if is_disk_scheme(scheme_name(entry)) => before.push(
                found_scheme_text(scheme_name(entry)),
            ),
            _ => before,
        }
    }
}

/// The directories to list after the root, given the root's listing.
pub open spec fn root_directories(root: ListingView) -> Seq<Seq<char>> {
    match root {
        ListingView::Failed(_) => Seq::empty(),
        ListingView::Entries(entries) => scheme_directories(entries),
    }
}

/// The log lines for the root's listing.
pub open spec fn root_lines(root: ListingView) -> Seq<Seq<char>> {
    match root {
        ListingView::Failed(why) => seq![schemes_failed_text(why)],
        ListingView::Entries(entries) => scheme_lines(entries),
    }
}

/// Picks the disk namespaces out of the root's listing. A root that cannot be
/// listed gives none, and one line in the log.
pub fn disk_schemes(root: &Listing) -> (found: Schemes)
    ensures
        texts(found.names@) == root_directories(root@),
        texts(found.lines@) == root_lines(root@),
{
    match root {
        Listing::Failed(why) => Schemes {
            names: no_lines(),
            lines: one_line(schemes_failed(why.as_str())),
        },
        Listing::Entries(entries) => {
            let mut names = no_lines();
            let mut lines = no_lines();
            let ghost all = entry_texts(entries@);
            let mut at: usize = 0;
            while at < entries.len()
                invariant
                    at <= entries.len(),
                    all == entry_texts(entries@),
                    texts(names@) == scheme_directories(all.take(at as int)),
                    texts(lines@) == scheme_lines(all.take(at as int)),
                decreases entries.len() - at,
            {
                proof {
                    assert(all.take(at + 1).drop_last() =~= all.take(at as int));
                }
                match &entries[at] {
                    Some(entry) => {
                        let name = scheme_of(entry.as_str());
                        if names_disk(name.as_str()) {
                            let line = found_scheme(name.as_str());
                            let mut directory = name;
                            directory.append(":");
                            proof {
                                lemma_texts_push(names@, directory);
                                lemma_texts_push(lines@, line);
                            }
                            names.push(directory);
                            lines.push(line);
                        }
                    },
                    None => {},
                }
                at += 1;
            }
            proof {
                assert(all.take(at as int) =~= all);
            }
            Schemes { names, lines }
        },
    }
}

/// One disk namespace with what listing its directory gave.
#[derive(Clone, Debug, PartialEq, Eq)]
pub struct SchemeScan {
    /// The directory that was listed.
    pub scheme: String,
    /// What the platform answered.
    pub listing: Listing,
}

/// The mathematical value of a [`SchemeScan`].
pub struct SchemeScanView {
    pub scheme: Seq<char>,
    pub listing: ListingView,
}

impl View for SchemeScan {
    type V = SchemeScanView;

    open spec fn view(&self) -> SchemeScanView {
        SchemeScanView { scheme: self.scheme@, listing: self.listing@ }
    }
}

/// The values of a list of scans, in order.
pub open spec fn scan_views(scans: Seq<SchemeScan>) -> Seq<SchemeScanView> {
    Seq::new(scans.len(), |i: int| scans[i]@)
}

/// The readable entries of a listing, in order.
pub open spec fn listed_paths(entries: Seq<Option<Seq<char>>>) -> Seq<Seq<char>>
    decreases entries.len(),
{
    if entries.len() == 0 {
        Seq::empty()
    } else {
        let before = listed_paths(entries.drop_last());
        match entries.last() {
            Some(path) => before.push(path),
            None => before,
        }
    }
}

/// The log lines for the readable entries of a listing, in order.
pub open spec fn listed_lines(entries: Seq<Option<Seq<char>>>) -> Seq<Seq<char>>
    decreases entries.len(),
{
    if entries.len() == 0 {
        Seq::empty()
    } else {
        let before = listed_lines(entries.drop_last());
        match entries.last() {
            Some(path) => before.push(found_path_text(path)),
            None => before,
        }
    }
}

/// The candidate paths that one scan contributes.
pub open spec fn scan_paths(scan: SchemeScanView) -> Seq<Seq<char>> {
    match scan.listing {
        ListingView::Failed(_) => Seq::empty(),
        ListingView::Entries(entries) => listed_paths(entries),
    }
}

/// The log lines that one scan contributes.
pub open spec fn scan_lines(scan: SchemeScanView) -> Seq<Seq<char>> {
    match scan.listing {
        ListingView::Failed(why) => seq![list_failed_text(scan.scheme, why)],
        ListingView::Entries(entries) => listed_lines(entries),
    }
}

/// The candidate paths of a list of scans: those of each scan, in order.
pub open spec fn scanned_paths(scans: Seq<SchemeScanView>) -> Seq<Seq<char>>
    decreases scans.len(),
{
    if scans.len() == 0 {
        Seq::empty()
    } else {
        scanned_paths(scans.drop_last()) + scan_paths(scans.last())
    }
}

/// The log lines of a list of scans: those of each scan, in order.
pub open spec fn scanned_lines(scans: Seq<SchemeScanView>) -> Seq<Seq<char>>
    decreases scans.len(),
{
    if scans.len() == 0 {
        Seq::empty()
    } else {
        scanned_lines(scans.drop_last()) + scan_lines(scans.last())
    }
}

/// Appends to `paths` the candidate paths found in the scanned namespaces:
/// every readable entry of every namespace that could be listed, in order. A
/// namespace that could not be listed contributes a line to the log and no
/// path. With no scans, as on a platform without such namespaces, `paths` is
/// left as it was.
pub fn disk_paths(paths: &mut Vec<String>, scans: &Vec<SchemeScan>) -> (lines: Vec<String>)
    ensures
        texts(final(paths)@) == texts(old(paths)@) + scanned_paths(scan_views(scans@)),
        texts(lines@) == scanned_lines(scan_views(scans@)),
{
    let mut lines = no_lines();
    let ghost all = scan_views(scans@);
    let ghost before = texts(paths@);
    assert(before + Seq::<Seq<char>>::empty() =~= before);
    let mut at: usize = 0;
    while at < scans.len()
        invariant
            at <= scans.len(),
            all == scan_views(scans@),
            texts(paths@) == before + scanned_paths(all.take(at as int)),
            texts(lines@) == scanned_lines(all.take(at as int)),
        decreases scans.len() - at,
    {
        let scan = &scans[at];
        let ghost done_paths = texts(paths@);
        let ghost done_lines = texts(lines@);
        proof {
            assert(all.take(at + 1).drop_last() =~= all.take(at as int));
            assert(all.take(at + 1).last() == scan@);
        }
        match &scan.listing {
            Listing::Failed(why) => {
                let line = list_failed(scan.scheme.as_str(), why.as_str());
                proof {
                    lemma_texts_push(lines@, line);
                    assert(done_lines.push(line@) =~= done_lines + seq![line@]);
                    assert(done_paths + Seq::<Seq<char>>::empty() =~= done_paths);
                }
                lines.push(line);
            },
            Listing::Entries(entries) => {
                let ghost listed = entry_texts(entries@);
                assert(done_paths + Seq::<Seq<char>>::empty() =~= done_paths);
                assert(done_lines + Seq::<Seq<char>>::empty() =~= done_lines);
                let mut entry: usize = 0;
                while entry < entries.len()
                    invariant
                        entry <= entries.len(),
                        listed == entry_texts(entries@),
                        texts(paths@) == done_paths + listed_paths(listed.take(entry as int)),
                        texts(lines@) == done_lines + listed_lines(listed.take(entry as int)),
                    decreases entries.len() - entry,
                {
                    proof {
                        assert(listed.take(entry + 1).drop_last() =~= listed.take(entry as int));
                    }
                    match &entries[entry] {
                        Some(path) => {
                            let line = found_path(path.as_str());
                            let found = path.clone();
                            proof {
                                lemma_texts_push(paths@, found);
                                lemma_texts_push(lines@, line);
                                let paths_so_far = listed_paths(listed.take(entry as int));
                                let lines_so_far = listed_lines(listed.take(entry as int));
                                assert((done_paths + paths_so_far).push(found@) =~= done_paths
                                    + paths_so_far.push(found@));
                                assert((done_lines + lines_so_far).push(line@) =~= done_lines
                                    + lines_so_far.push(line@));
                            }
                            paths.push(found);
                            lines.push(line);
                        },
                        None => {},
                    }
                    entry += 1;
                }
                proof {
                    assert(listed.take(entry as int) =~= listed);
                }
            },
        }
        proof {
            let earlier = scanned_paths(all.take(at as int));
            assert((before + earlier) + scan_paths(scan@) =~= before + (earlier + scan_paths(
                scan@,
            )));
        }
        at += 1;
    }
    proof {
        assert(all.take(at as int) =~= all);
    }
    lines
}

} // verus!

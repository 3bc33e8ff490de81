//! The disk selector: which filesystem the user asked for.

use crate::fsid::{
    has_hyphenated_shape, hyphenated_shape, parse_uuid, parsed_view, uuid_parse_str,
};
use crate::notes::{
    invalid_uuid, invalid_uuid_text, lemma_texts_push, no_disk_text, no_mountpoint_text,
    no_uuid_text, not_hyphenated, not_hyphenated_text, one_line, texts, usage, usage_text,
};
use vstd::prelude::*;
use vstd::string::StringExecFns;

verus! {

/// How the user named the disk to mount.
#[derive(Clone, Debug, PartialEq, Eq)]
pub enum DiskId {
    /// The path of a block device or disk image.
    Path(String),
    /// The identifier in the header of the wanted filesystem.
    Uuid([u8; 16]),
}

/// The mathematical value of a [`DiskId`].
pub enum DiskIdView {
    Path(Seq<char>),
    Uuid(Seq<u8>),
}

impl View for DiskId {
    type V = DiskIdView;

    open spec fn view(&self) -> DiskIdView {
        match *self {
            DiskId::Path(path) => DiskIdView::Path(path@),
            DiskId::Uuid(id) => DiskIdView::Uuid(id@),
        }
    }
}

impl DiskIdView {
    /// The identifier that a candidate's filesystem has to carry, if any.
    pub open spec fn target(self) -> Option<Seq<u8>> {
        match self {
            DiskIdView::Path(_) => None,
            DiskIdView::Uuid(id) => Some(id),
        }
    }
}

/// What the command line asks for.
#[derive(Clone, Debug, PartialEq, Eq)]
pub struct Invocation {
    /// The disk to mount.
    pub disk: DiskId,
    /// Where to mount it.
    pub mountpoint: String,
}

/// The mathematical value of an [`Invocation`].
pub struct InvocationView {
    pub disk: DiskIdView,
    pub mountpoint: Seq<char>,
}

impl View for Invocation {
    type V = InvocationView;

    open spec fn view(&self) -> InvocationView {
        InvocationView { disk: self.disk@, mountpoint: self.mountpoint@ }
    }
}

/// Why a command line was turned down.
#[derive(Clone, Debug, PartialEq, Eq)]
pub enum UsageError {
    /// There is no argument at all.
    NoDisk,
    /// `--uuid` is the last argument.
    NoUuid,
    /// The argument after `--uuid` is no identifier.
    InvalidUuid {
        /// The argument as given.
        given: String,
        /// What is wrong with it.
        why: String,
    },
    /// Nothing follows the disk.
    NoMountpoint,
}

/// The mathematical value of a [`UsageError`].
pub enum UsageErrorView {
    NoDisk,
    NoUuid,
    InvalidUuid { given: Seq<char>, why: Seq<char> },
    NoMountpoint,
}

impl View for UsageError {
    type V = UsageErrorView;

    open spec fn view(&self) -> UsageErrorView {
        match *self {
            UsageError::NoDisk => UsageErrorView::NoDisk,
            UsageError::NoUuid => UsageErrorView::NoUuid,
            UsageError::InvalidUuid { given, why } => UsageErrorView::InvalidUuid {
                given: given@,
                why: why@,
            },
            UsageError::NoMountpoint => UsageErrorView::NoMountpoint,
        }
    }
}

impl UsageErrorView {
    /// The line that names the fault.
    pub open spec fn message(self) -> Seq<char> {
        match self {
            UsageErrorView::NoDisk => no_disk_text(),
            UsageErrorView::NoUuid => no_uuid_text(),
            UsageErrorView::InvalidUuid { given, why } => invalid_uuid_text(given, why),
            UsageErrorView::NoMountpoint => no_mountpoint_text(),
        }
    }

    /// What the user is shown: the fault, then how the program is called.
    pub open spec fn report(self) -> Seq<Seq<char>> {
        seq![self.message(), usage_text()]
    }
}

impl UsageError {
    /// Builds the line that names the fault.
    pub fn message(&self) -> (line: String)
        ensures
            line@ == self@.message(),
    {
        match self {
            UsageError::NoDisk => String::from_str("redoxfs: no disk provided"),
            UsageError::NoUuid => String::from_str("redoxfs: no uuid provided"),
            UsageError::InvalidUuid { given, why } => invalid_uuid(given.as_str(), why.as_str()),
            UsageError::NoMountpoint => String::from_str("redoxfs: no mountpoint provided"),
        }
    }

    /// Builds what the user is shown.
    pub fn report(&self) -> (lines: Vec<String>)
        ensures
            texts(lines@) == self@.report(),
    {
        let mut lines = one_line(self.message());
        let line = usage();
        proof {
            lemma_texts_push(lines@, line);
        }
        lines.push(line);
        lines
    }
}

/// The value of a selector or the fault found in its place.
pub open spec fn disk_view(disk: Result<DiskId, UsageError>) -> Result<DiskIdView, UsageErrorView> {
    match disk {
        Ok(disk) => Ok(disk@),
        Err(fault) => Err(fault@),
    }
}

/// The value of an invocation or the fault found in its place.
pub open spec fn invocation_view(parsed: Result<Invocation, UsageError>) -> Result<
    InvocationView,
    UsageErrorView,
> {
    match parsed {
        Ok(invocation) => Ok(invocation@),
        Err(fault) => Err(fault@),
    }
}

/// The selector that `--uuid` with the argument `given` stands for, where
/// reading `given` as an identifier had the outcome `parsed`. Only the
/// hyphenated form of 36 characters is taken: an identifier read from a text
/// of another form is turned down like a text that could not be read.
pub open spec fn uuid_selector(given: Seq<char>, parsed: Result<Seq<u8>, Seq<char>>) -> Result<
    DiskIdView,
    UsageErrorView,
> {
    match parsed {
        Ok(id) => if hyphenated_shape(given) {
            Ok(DiskIdView::Uuid(id))
        } else {
            Err(UsageErrorView::InvalidUuid { given, why: not_hyphenated_text() })
        },
        Err(why) => Err(UsageErrorView::InvalidUuid { given, why }),
    }
}

/// The selector at the front of a command line, with the number of arguments
/// it takes up.
pub open spec fn parse_disk(args: Seq<Seq<char>>) -> Result<(DiskIdView, int), UsageErrorView> {
    if args.len() == 0 {
        Err(UsageErrorView::NoDisk)
    } else if args[0] == "--uuid"@ {
        if args.len() == 1 {
            Err(UsageErrorView::NoUuid)
        } else {
            match uuid_selector(args[1], uuid_parse_str(args[1])) {
                Ok(disk) => Ok((disk, 2)),
                Err(fault) => Err(fault),
            }
        }
    } else {
        Ok((DiskIdView::Path(args[0]), 1))
    }
}

/// What a command line asks for: a selector, then a mountpoint. Whatever
/// follows the mountpoint is not looked at.
pub open spec fn parse(args: Seq<Seq<char>>) -> Result<InvocationView, UsageErrorView> {
    match parse_disk(args) {
        Err(fault) => Err(fault),
        Ok((disk, used)) => if used < args.len() {
            Ok(InvocationView { disk, mountpoint: args[used] })
        } else {
            Err(UsageErrorView::NoMountpoint)
        },
    }
}

/// Makes the selector for `--uuid` out of the outcome of reading its
/// argument.
pub fn selector_by_uuid(given: &str, parsed: Result<[u8; 16], String>) -> (disk: Result<
    DiskId,
    UsageError,
>)
    ensures
        disk_view(disk) == uuid_selector(given@, parsed_view(parsed)),
{
    match parsed {
        Ok(id) => if has_hyphenated_shape(given) {
            Ok(DiskId::Uuid(id))
        } else {
            Err(UsageError::InvalidUuid { given: String::from_str(given), why: not_hyphenated() })
        },
        Err(why) => Err(UsageError::InvalidUuid { given: String::from_str(given), why }),
    }
}

/// Reads the command line, without the program's name.
pub fn parse_args(args: &Vec<String>) -> (parsed: Result<Invocation, UsageError>)
    ensures
        invocation_view(parsed) == parse(texts(args@)),
{
    if args.len() == 0 {
        return Err(UsageError::NoDisk);
    }
    let flag = String::from_str("--uuid");
    let (disk, used): (DiskId, usize) = if args[0] == flag {
        if args.len() == 1 {
            return Err(UsageError::NoUuid);
        }
        let given = args[1].as_str();
        match selector_by_uuid(given, parse_uuid(given)) {
            Ok(disk) => (disk, 2),
            Err(fault) => {
                return Err(fault);
            },
        }
    } else {
        (DiskId::Path(args[0].clone()), 1)
    };
    if used < args.len() {
        Ok(Invocation { disk, mountpoint: args[used].clone() })
    } else {
        Err(UsageError::NoMountpoint)
    }
}

/// A command line that names a disk by path and a mountpoint is taken as
/// such: the first argument, whatever it holds, is the path.
pub proof fn lemma_parse_path(args: Seq<Seq<char>>)
    requires
        args.len() >= 2,
        args[0] != "--uuid"@,
    ensures
        parse(args) == Ok::<InvocationView, UsageErrorView>(
            InvocationView { disk: DiskIdView::Path(args[0]), mountpoint: args[1] },
        ),
{
}

/// A command line with `--uuid`, an identifier in the hyphenated form and a
/// mountpoint selects the filesystem with that identifier.
pub proof fn lemma_parse_uuid(args: Seq<Seq<char>>, id: Seq<u8>)
    requires
        args.len() >= 3,
        args[0] == "--uuid"@,
        hyphenated_shape(args[1]),
        uuid_parse_str(args[1]) == Ok::<Seq<u8>, Seq<char>>(id),
    ensures
        parse(args) == Ok::<InvocationView, UsageErrorView>(
            InvocationView { disk: DiskIdView::Uuid(id), mountpoint: args[2] },
        ),
{
}

/// A text after `--uuid` that is no identifier is always turned down,
/// whatever follows it.
pub proof fn lemma_parse_malformed_uuid(args: Seq<Seq<char>>, why: Seq<char>)
    requires
        args.len() >= 2,
        args[0] == "--uuid"@,
        uuid_parse_str(args[1]) == Err::<Seq<u8>, Seq<char>>(why),
    ensures
        parse(args) == Err::<InvocationView, UsageErrorView>(
            UsageErrorView::InvalidUuid { given: args[1], why },
        ),
{
}

/// A text after `--uuid` that is not in the hyphenated form of 36 characters
/// is always turned down, whatever it holds and whatever follows it: so are
/// 32 digits without hyphens, and any text of another length.
pub proof fn lemma_parse_unhyphenated_uuid(args: Seq<Seq<char>>)
    requires
        args.len() >= 2,
        args[0] == "--uuid"@,
        !hyphenated_shape(args[1]),
    ensures
        parse(args) matches Err(UsageErrorView::InvalidUuid { given, .. }) && given == args[1],
        uuid_parse_str(args[1]) is Ok ==> parse(args) == Err::<InvocationView, UsageErrorView>(
            UsageErrorView::InvalidUuid { given: args[1], why: not_hyphenated_text() },
        ),
{
}

/// A command line is either turned down or yields one selector and one
/// mountpoint; it is turned down exactly when the disk, the identifier or the
/// mountpoint is missing or the identifier is malformed or not in the
/// hyphenated form.
pub proof fn lemma_parse_total(args: Seq<Seq<char>>)
    ensures
        parse(args) is Err <==> {
            ||| args.len() == 0
            ||| args.len() == 1
            ||| args[0] == "--uuid"@ && (args.len() == 2 || uuid_parse_str(args[1]) is Err
                || !hyphenated_shape(args[1]))
        },
        parse(args) matches Ok(invocation) ==> (invocation.disk is Path <==> args[0]
            != "--uuid"@),
{
}

} // verus!

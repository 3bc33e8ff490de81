//! The lines that the launcher and its daemon write to their log.
//!
//! Each line has a specification over character sequences and a builder that
//! produces exactly that text.

use crate::fsid::{hyphenated, hyphenated_text};
use vstd::prelude::*;
use vstd::string::StringExecFns;

verus! {

/// The texts of a list of lines, in order.
pub open spec fn texts(lines: Seq<String>) -> Seq<Seq<char>> {
    Seq::new(lines.len(), |i: int| lines[i]@)
}

/// Announces the attempt to open a candidate.
pub open spec fn opening_text(path: Seq<char>) -> Seq<char> {
    "redoxfs: opening "@ + path
}

/// Builds the line of [`opening_text`].
pub fn opening(path: &str) -> (line: String)
    ensures
        line@ == opening_text(path@),
{
    let mut line = String::from_str("redoxfs: opening ");
    line.append(path);
    line
}

/// Reports that a candidate could not be opened as a disk.
pub open spec fn image_failed_text(path: Seq<char>, why: Seq<char>) -> Seq<char> {
    "redoxfs: failed to open image "@ + path + ": "@ + why
}

/// Builds the line of [`image_failed_text`].
pub fn image_failed(path: &str, why: &str) -> (line: String)
    ensures
        line@ == image_failed_text(path@, why@),
{
    let mut line = String::from_str("redoxfs: failed to open image ");
    line.append(path);
    line.append(": ");
    line.append(why);
    line
}

/// Reports that no filesystem could be opened on a candidate's disk.
pub open spec fn filesystem_failed_text(path: Seq<char>, why: Seq<char>) -> Seq<char> {
    "redoxfs: failed to open filesystem "@ + path + ": "@ + why
}

/// Builds the line of [`filesystem_failed_text`].
pub fn filesystem_failed(path: &str, why: &str) -> (line: String)
    ensures
        line@ == filesystem_failed_text(path@, why@),
{
    let mut line = String::from_str("redoxfs: failed to open filesystem ");
    line.append(path);
    line.append(": ");
    line.append(why);
    line
}

/// Reports a filesystem found on a candidate, with its identifier.
pub open spec fn opened_text(path: Seq<char>, id: Seq<u8>) -> Seq<char> {
    "redoxfs: opened filesystem on "@ + path + " with uuid "@ + hyphenated_text(id)
}

/// Builds the line of [`opened_text`].
pub fn opened(path: &str, id: &[u8; 16]) -> (line: String)
    ensures
        line@ == opened_text(path@, id@),
{
    let mut line = String::from_str("redoxfs: opened filesystem on ");
    line.append(path);
    line.append(" with uuid ");
    let text = hyphenated(id);
    line.append(text.as_str());
    line
}

/// Reports that a candidate's filesystem carries the wanted identifier.
pub open spec fn matched_text(path: Seq<char>, wanted: Seq<u8>) -> Seq<char> {
    "redoxfs: filesystem on "@ + path + " matches uuid "@ + hyphenated_text(wanted)
}

/// Builds the line of [`matched_text`].
pub fn matched(path: &str, wanted: &[u8; 16]) -> (line: String)
    ensures
        line@ == matched_text(path@, wanted@),
{
    let mut line = String::from_str("redoxfs: filesystem on ");
    line.append(path);
    line.append(" matches uuid ");
    let text = hyphenated(wanted);
    line.append(text.as_str());
    line
}

/// Reports that a candidate's filesystem carries another identifier than the
/// wanted one.
pub open spec fn mismatched_text(path: Seq<char>, wanted: Seq<u8>) -> Seq<char> {
    "redoxfs: filesystem on "@ + path + " does not match uuid "@ + hyphenated_text(wanted)
}

/// Builds the line of [`mismatched_text`].
pub fn mismatched(path: &str, wanted: &[u8; 16]) -> (line: String)
    ensures
        line@ == mismatched_text(path@, wanted@),
{
    let mut line = String::from_str("redoxfs: filesystem on ");
    line.append(path);
    line.append(" does not match uuid ");
    let text = hyphenated(wanted);
    line.append(text.as_str());
    line
}

/// Reports that a candidate's filesystem is attached at the mountpoint.
pub open spec fn mounted_text(path: Seq<char>, mountpoint: Seq<char>) -> Seq<char> {
    "redoxfs: mounted filesystem on "@ + path + " to "@ + mountpoint
}

/// Builds the line of [`mounted_text`].
pub fn mounted(path: &str, mountpoint: &str) -> (line: String)
    ensures
        line@ == mounted_text(path@, mountpoint@),
{
    let mut line = String::from_str("redoxfs: mounted filesystem on ");
    line.append(path);
    line.append(" to ");
    line.append(mountpoint);
    line
}

/// Reports that mounting a candidate's filesystem ended with an error.
pub open spec fn mount_failed_text(path: Seq<char>, mountpoint: Seq<char>, why: Seq<char>) -> Seq<
    char,
> {
    "redoxfs: failed to mount "@ + path + " to "@ + mountpoint + ": "@ + why
}

/// Builds the line of [`mount_failed_text`].
pub fn mount_failed(path: &str, mountpoint: &str, why: &str) -> (line: String)
    ensures
        line@ == mount_failed_text(path@, mountpoint@, why@),
{
    let mut line = String::from_str("redoxfs: failed to mount ");
    line.append(path);
    line.append(" to ");
    line.append(mountpoint);
    line.append(": ");
    line.append(why);
    line
}

/// Reports that the disk named by path could not be mounted.
pub open spec fn unable_path_text(path: Seq<char>) -> Seq<char> {
    "redoxfs: not able to mount path "@ + path
}

/// Builds the line of [`unable_path_text`].
pub fn unable_path(path: &str) -> (line: String)
    ensures
        line@ == unable_path_text(path@),
{
    let mut line = String::from_str("redoxfs: not able to mount path ");
    line.append(path);
    line
}

/// Reports that no disk with the wanted identifier could be mounted.
pub open spec fn unable_uuid_text(wanted: Seq<u8>) -> Seq<char> {
    "redoxfs: not able to mount uuid "@ + hyphenated_text(wanted)
}

/// Builds the line of [`unable_uuid_text`].
pub fn unable_uuid(wanted: &[u8; 16]) -> (line: String)
    ensures
        line@ == unable_uuid_text(wanted@),
{
    let mut line = String::from_str("redoxfs: not able to mount uuid ");
    let text = hyphenated(wanted);
    line.append(text.as_str());
    line
}

/// Reports a storage namespace whose name begins with the device prefix.
pub open spec fn found_scheme_text(name: Seq<char>) -> Seq<char> {
    "redoxfs: found scheme "@ + name
}

/// Builds the line of [`found_scheme_text`].
pub fn found_scheme(name: &str) -> (line: String)
    ensures
        line@ == found_scheme_text(name@),
{
    let mut line = String::from_str("redoxfs: found scheme ");
    line.append(name);
    line
}

/// Reports that the namespaces could not be listed.
pub open spec fn schemes_failed_text(why: Seq<char>) -> Seq<char> {
    "redoxfs: failed to list schemes: "@ + why
}

/// Builds the line of [`schemes_failed_text`].
pub fn schemes_failed(why: &str) -> (line: String)
    ensures
        line@ == schemes_failed_text(why@),
{
    let mut line = String::from_str("redoxfs: failed to list schemes: ");
    line.append(why);
    line
}

/// Reports a candidate path found in a storage namespace.
pub open spec fn found_path_text(path: Seq<char>) -> Seq<char> {
    "redoxfs: found path "@ + path
}

/// Builds the line of [`found_path_text`].
pub fn found_path(path: &str) -> (line: String)
    ensures
        line@ == found_path_text(path@),
{
    let mut line = String::from_str("redoxfs: found path ");
    line.append(path);
    line
}

/// Reports that the entries of one storage namespace could not be listed.
pub open spec fn list_failed_text(scheme: Seq<char>, why: Seq<char>) -> Seq<char> {
    "redoxfs: failed to list '"@ + scheme + "': "@ + why
}

/// Builds the line of [`list_failed_text`].
pub fn list_failed(scheme: &str, why: &str) -> (line: String)
    ensures
        line@ == list_failed_text(scheme@, why@),
{
    let mut line = String::from_str("redoxfs: failed to list '");
    line.append(scheme);
    line.append("': ");
    line.append(why);
    line
}

/// Shows how the program is called.
pub open spec fn usage_text() -> Seq<char> {
    "redoxfs [--uuid] [disk or uuid] [mountpoint]"@
}

/// Builds the line of [`usage_text`].
pub fn usage() -> (line: String)
    ensures
        line@ == usage_text(),
{
    String::from_str("redoxfs [--uuid] [disk or uuid] [mountpoint]")
}

/// Reports that no disk was named.
pub open spec fn no_disk_text() -> Seq<char> {
    "redoxfs: no disk provided"@
}

/// Reports that `--uuid` was not followed by an identifier.
pub open spec fn no_uuid_text() -> Seq<char> {
    "redoxfs: no uuid provided"@
}

/// Reports that no mountpoint was named.
pub open spec fn no_mountpoint_text() -> Seq<char> {
    "redoxfs: no mountpoint provided"@
}

/// Says that an identifier was not written in the hyphenated form.
pub open spec fn not_hyphenated_text() -> Seq<char> {
    "Invalid form; expecting 36 chars in hyphenated groups of 8-4-4-4-12"@
}

/// Builds the text of [`not_hyphenated_text`].
pub fn not_hyphenated() -> (why: String)
    ensures
        why@ == not_hyphenated_text(),
{
    String::from_str("Invalid form; expecting 36 chars in hyphenated groups of 8-4-4-4-12")
}

/// Reports that the text after `--uuid` is no identifier.
pub open spec fn invalid_uuid_text(given: Seq<char>, why: Seq<char>) -> Seq<char> {
    "redoxfs: invalid uuid '"@ + given + "': "@ + why
}

/// Builds the line of [`invalid_uuid_text`].
pub fn invalid_uuid(given: &str, why: &str) -> (line: String)
    ensures
        line@ == invalid_uuid_text(given@, why@),
{
    let mut line = String::from_str("redoxfs: invalid uuid '");
    line.append(given);
    line.append("': ");
    line.append(why);
    line
}

/// Reports that the handshake channel could not be created.
pub open spec fn pipe_failed_text() -> Seq<char> {
    "redoxfs: failed to create pipe"@
}

/// Reports that no daemon process could be created.
pub open spec fn fork_failed_text() -> Seq<char> {
    "redoxfs: failed to fork"@
}

/// Reports that the daemon went away without saying how the mount went.
pub open spec fn silence_text() -> Seq<char> {
    "redoxfs: daemon closed the channel without an outcome"@
}

/// Appending a line to a log appends its text to the log's texts.
pub proof fn lemma_texts_push(lines: Seq<String>, line: String)
    ensures
        texts(lines.push(line)) == texts(lines).push(line@),
{
    assert(texts(lines.push(line)) =~= texts(lines).push(line@));
}

/// A log of one line.
pub fn one_line(line: String) -> (lines: Vec<String>)
    ensures
        texts(lines@) == seq![line@],
{
    let mut lines: Vec<String> = Vec::new();
    lines.push(line);
    assert(texts(lines@) =~= seq![line@]);
    lines
}

/// An empty log.
pub fn no_lines() -> (lines: Vec<String>)
    ensures
        texts(lines@) == Seq::<Seq<char>>::empty(),
{
    let lines: Vec<String> = Vec::new();
    assert(texts(lines@) =~= Seq::<Seq<char>>::empty());
    lines
}

} // verus!

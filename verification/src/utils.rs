//! Path syntax, ownership and permission rules, and the small text rules the
//! rest of the library is built from.

use crate::error::{about, doas_cat_permission_denied, doas_unavailable, doas_validation_error};
use crate::error::{invalid_editor, plain};
use crate::error::{DoaseditError, ErrorKind, ErrorView};
use crate::event::{Event, EventView};
use vstd::prelude::*;

verus! {

/// What the rules read from the metadata of a file or directory.
#[derive(Clone, Copy, Debug, PartialEq, Eq, Structural)]
pub struct FileMetadata {
    /// The entry is a directory.
    pub is_dir: bool,
    /// The numeric identity of the owner.
    pub uid: u32,
    /// The permission bits.
    pub mode: u32,
}

/// The write bit of the owner.
pub const OWNER_WRITE: u32 = 0o200;

/// The write bits of owner, group and others.
pub const ANY_WRITE: u32 = 0o222;

/// The real user identity of the running process.
///
/// Trusted: calls `nix::unistd::getuid` and unwraps the identity it returns.
/// Nothing is claimed of the number.
#[verifier::external_body]
pub fn get_current_uid() -> u32 {
    nix::unistd::getuid().as_raw()
}

/// The effective user identity of the running process.
///
/// Trusted: calls `nix::unistd::geteuid` and unwraps the identity it returns.
/// Nothing is claimed of the number.
#[verifier::external_body]
pub(crate) fn effective_uid() -> u32 {
    nix::unistd::geteuid().as_raw()
}

/// Whether the file described by `metadata` belongs to the user `current_uid`.
pub fn is_file_owned_by_user(metadata: &FileMetadata, current_uid: u32) -> (owned: bool)
    ensures
        owned == (metadata.uid == current_uid),
{
    metadata.uid == current_uid
}

/// Whether the directory described by `metadata` belongs to the user
/// `current_uid`.
pub fn is_dir_owned_by_user(metadata: &FileMetadata, current_uid: u32) -> (owned: bool)
    ensures
        owned == (metadata.uid == current_uid),
{
    metadata.uid == current_uid
}

/// Whether the user may count the directory as writable: it carries a write bit
/// for anyone, and the user owns it.
pub open spec fn spec_dir_writable(metadata: FileMetadata, current_uid: u32) -> bool {
    (metadata.mode & ANY_WRITE) != 0 && metadata.uid == current_uid
}

/// Whether the user may count the file as writable: its owner may write it, and
/// the user is that owner. Write bits of group and others never count.
pub open spec fn spec_file_writable(metadata: FileMetadata, current_uid: u32) -> bool {
    (metadata.mode & OWNER_WRITE) != 0 && metadata.uid == current_uid
}

/// Whether the directory described by `metadata` is writable by the user
/// `current_uid`.
pub fn is_dir_writable_by_user(metadata: &FileMetadata, current_uid: u32) -> (writable: bool)
    ensures
        writable == spec_dir_writable(*metadata, current_uid),
{
    (metadata.mode & ANY_WRITE) != 0 && metadata.uid == current_uid
}

/// Whether the file described by `metadata` is writable by the user
/// `current_uid`.
pub fn is_file_writable_by_user(metadata: &FileMetadata, current_uid: u32) -> (writable: bool)
    ensures
        writable == spec_file_writable(*metadata, current_uid),
{
    (metadata.mode & OWNER_WRITE) != 0 && metadata.uid == current_uid
}

/// Whether a path is written as a directory: it ends in a separator.
pub open spec fn spec_is_directory_path(path: Seq<char>) -> bool {
    path.len() > 0 && path.last() == '/'
}

/// Whether `path` is written as a directory.
pub fn is_directory_path(path: &str) -> (directory: bool)
    ensures
        directory == spec_is_directory_path(path@),
{
    let n = path.unicode_len();
    if n == 0 {
        false
    } else {
        path.get_char(n - 1) == '/'
    }
}

/// Whether `text` begins with `prefix`.
pub fn has_prefix(text: &str, prefix: &str) -> (found: bool)
    ensures
        found == prefix@.is_prefix_of(text@),
{
    let n = prefix.unicode_len();
    if n > text.unicode_len() {
        return false;
    }
    let mut i: usize = 0;
    while i < n
        invariant
            i <= n,
            n == prefix@.len(),
            n <= text@.len(),
            forall|j: int| 0 <= j < i ==> prefix@[j] == text@[j],
        decreases n - i,
    {
        if prefix.get_char(i) != text.get_char(i) {
            return false;
        }
        i += 1;
    }
    true
}

/// Whether `left` and `right` hold the same characters.
pub fn same_text(left: &str, right: &str) -> (same: bool)
    ensures
        same == (left@ == right@),
{
    if left.unicode_len() != right.unicode_len() {
        return false;
    }
    let found = has_prefix(left, right);
    proof {
        if found {
            assert(left@ =~= right@);
        }
    }
    found
}

/// The configuration file of the privilege helper.
pub open spec fn config_file() -> Seq<char> {
    "/etc/doas.conf"@
}

/// The directory that holds further configuration of the privilege helper.
pub open spec fn config_directory() -> Seq<char> {
    "/etc/doas.d/"@
}

/// Whether a path belongs to the privilege helper's configuration: it is the
/// configuration file, or lies under the configuration directory.
pub open spec fn spec_is_doas_config_file(path: Seq<char>) -> bool {
    path == config_file() || config_directory().is_prefix_of(path)
}

/// Whether `file_path` belongs to the privilege helper's configuration, so that
/// its edited copy must pass the helper's syntax check before it is committed.
pub fn is_doas_config_file(file_path: &str) -> (config: bool)
    ensures
        config == spec_is_doas_config_file(file_path@),
{
    same_text(file_path, "/etc/doas.conf") || has_prefix(file_path, "/etc/doas.d/")
}

/// What `std::path::Path::parent` returns for a path, if it returns anything.
pub uninterp spec fn path_parent_of(path: Seq<char>) -> Option<Seq<char>>;

/// What `std::path::Path::file_name` returns for a path, if it returns anything.
pub uninterp spec fn path_file_name_of(path: Seq<char>) -> Option<Seq<char>>;

/// The path without its last component.
///
/// Trusted: calls `std::path::Path::parent` and copies the result into a
/// string. The result is only named; nothing else is claimed of it.
#[verifier::external_body]
fn path_parent(path: &str) -> (parent: Option<String>)
    ensures
        parent.deep_view() == path_parent_of(path@),
{
    match std::path::Path::new(path).parent() {
        Some(parent) => Some(parent.to_string_lossy().into_owned()),
        None => None,
    }
}

/// The last component of the path.
///
/// Trusted: calls `std::path::Path::file_name` and copies the result into a
/// string. The result is only named; nothing else is claimed of it.
#[verifier::external_body]
fn path_file_name(path: &str) -> (name: Option<String>)
    ensures
        name.deep_view() == path_file_name_of(path@),
{
    match std::path::Path::new(path).file_name() {
        Some(name) => Some(name.to_string_lossy().into_owned()),
        None => None,
    }
}

/// The directory a path lies in, given the path's parent where it has one: the
/// parent, or the root directory.
pub open spec fn parent_or_root(parent: Option<Seq<char>>) -> Seq<char> {
    match parent {
        Some(directory) => directory,
        None => "/"@,
    }
}

/// The directory to look at for a path whose parent is `parent`.
pub fn directory_of(parent: Option<String>) -> (directory: String)
    ensures
        directory@ == parent_or_root(parent.deep_view()),
{
    match parent {
        Some(directory) => directory,
        None => String::from_str("/"),
    }
}

/// The directory that `file_path` lies in.
pub fn get_parent_directory(file_path: &str) -> (directory: String)
    ensures
        directory@ == parent_or_root(path_parent_of(file_path@)),
{
    directory_of(path_parent(file_path))
}

/// The outcome of looking for a file name: the name, or the error for a path
/// that has none.
pub open spec fn name_or_error(name: Option<Seq<char>>) -> Result<Seq<char>, ErrorView> {
    match name {
        Some(text) => Ok(text),
        None => Err(about(ErrorKind::InvalidEditor, "Invalid file path"@)),
    }
}

/// The value of a result that holds a text or an error.
pub open spec fn text_result(result: Result<String, DoaseditError>) -> Result<
    Seq<char>,
    ErrorView,
> {
    match result {
        Ok(text) => Ok(text@),
        Err(error) => Err(error@),
    }
}

/// Turns the last component of a path, where there is one, into the file name
/// to stage under.
pub fn filename_or_error(name: Option<String>) -> (result: Result<String, DoaseditError>)
    ensures
        text_result(result) == name_or_error(name.deep_view()),
{
    match name {
        Some(text) => Ok(text),
        None => Err(invalid_editor("Invalid file path")),
    }
}

/// The file name of `path`, or an error where the path has none.
pub fn get_filename(path: &str) -> (result: Result<String, DoaseditError>)
    ensures
        text_result(result) == name_or_error(path_file_name_of(path@)),
{
    filename_or_error(path_file_name(path))
}

/// The name of the reference copy of a file named `original_name`.
pub open spec fn spec_copy_filename(original_name: Seq<char>) -> Seq<char> {
    "copy-of-"@ + original_name
}

/// The name under which the untouched reference copy of `original_name` is
/// staged.
pub fn create_copy_filename(original_name: &str) -> (name: String)
    ensures
        name@ == spec_copy_filename(original_name@),
{
    String::from_str("copy-of-").concat(original_name)
}

/// Whether two files hold the same bytes, given the contents of both.
pub fn files_match(content1: &[u8], content2: &[u8]) -> (same: bool)
    ensures
        same == (content1@ == content2@),
{
    if content1.len() != content2.len() {
        return false;
    }
    let n = content1.len();
    let mut i: usize = 0;
    while i < n
        invariant
            i <= n,
            n == content1@.len(),
            n == content2@.len(),
            forall|j: int| 0 <= j < i ==> content1@[j] == content2@[j],
        decreases n - i,
    {
        if content1[i] != content2[i] {
            return false;
        }
        i += 1;
    }
    assert(content1@ =~= content2@);
    true
}

/// The permission bits assumed where the helper's answer names none that can
/// be read.
pub const DEFAULT_MODE: u32 = 0o644;

/// Whether three bytes are the UTF-8 form of a white space character of three
/// bytes: the Ogham space mark, one of the spaces from the en quad to the hair
/// space, the line separator, the paragraph separator, the narrow no-break
/// space, the medium mathematical space or the ideographic space.
pub open spec fn is_wide_blank(first: u8, second: u8, third: u8) -> bool {
    ||| first == 0xe1 && second == 0x9a && third == 0x80
    ||| first == 0xe2 && second == 0x80 && ((0x80 <= third && third <= 0x8a) || third == 0xa8
        || third == 0xa9 || third == 0xaf)
    ||| first == 0xe2 && second == 0x81 && third == 0x9f
    ||| first == 0xe3 && second == 0x80 && third == 0x80
}

/// The length in bytes of the white space character that starts at position
/// `at` of a text in UTF-8, and zero where none starts there. White space is
/// what Unicode calls so: the space, the controls from tab to carriage return,
/// the next-line control and the no-break space, which take two bytes, and the
/// characters of [`is_wide_blank`].
pub open spec fn blank_len(bytes: Seq<u8>, at: int) -> int {
    if !(0 <= at < bytes.len()) {
        0
    } else if bytes[at] == 0x20 || (0x09 <= bytes[at] && bytes[at] <= 0x0d) {
        1
    } else if at + 1 < bytes.len() && bytes[at] == 0xc2 && (bytes[at + 1] == 0x85 || bytes[at
        + 1] == 0xa0) {
        2
    } else if at + 2 < bytes.len() && is_wide_blank(bytes[at], bytes[at + 1], bytes[at + 2]) {
        3
    } else {
        0
    }
}

/// The first position at or after `from` at which no white space starts, once
/// the white space that starts at `from` and what follows it is passed.
pub open spec fn blanks_end(bytes: Seq<u8>, from: int) -> int
    decreases bytes.len() - from,
{
    if blank_len(bytes, from) > 0 {
        blanks_end(bytes, from + blank_len(bytes, from))
    } else {
        from
    }
}

/// The first position at or after `from` at which white space starts, or the
/// end.
pub open spec fn word_end(bytes: Seq<u8>, from: int) -> int
    decreases bytes.len() - from,
{
    if 0 <= from < bytes.len() && blank_len(bytes, from) == 0 {
        word_end(bytes, from + 1)
    } else {
        from
    }
}

/// The value of a byte as a digit in the given radix, where it is one.
pub open spec fn digit_of(byte: u8, radix: u32) -> Option<nat> {
    if 0x30 <= byte && byte < 0x30 + radix {
        Some((byte - 0x30) as nat)
    } else {
        None
    }
}

/// The number that a run of digits writes in the given radix, most significant
/// digit first; nothing where a byte is no digit. The empty run writes zero.
pub open spec fn digits_value(digits: Seq<u8>, radix: u32) -> Option<nat>
    decreases digits.len(),
{
    if digits.len() == 0 {
        Some(0)
    } else {
        match (digits_value(digits.drop_last(), radix), digit_of(digits.last(), radix)) {
            (Some(value), Some(digit)) => Some((value * radix + digit) as nat),
            _ => None,
        }
    }
}

/// The digits of a word: the word without one leading plus sign.
pub open spec fn digits_of(word: Seq<u8>) -> Seq<u8> {
    if word.len() > 0 && word[0] == 0x2b {
        word.drop_first()
    } else {
        word
    }
}

/// The number that a word writes in the given radix: at least one digit, after
/// an optional plus sign, with a value that fits in 32 bits.
pub open spec fn spec_parse_number(word: Seq<u8>, radix: u32) -> Option<u32> {
    match digits_value(digits_of(word), radix) {
        Some(value) => if digits_of(word).len() > 0 && value <= u32::MAX {
            Some(value as u32)
        } else {
            None
        },
        None => None,
    }
}

/// What the helper's answer to a metadata query says: the owner, written in
/// decimal as the first word, and the permission bits, written in octal as the
/// second, where white space parts the words. An answer of fewer than two
/// words and an owner that is no number are errors; permission bits that are
/// no number count as [`DEFAULT_MODE`].
pub open spec fn spec_parse_stat_output(output: Seq<u8>) -> Result<(u32, u32), ErrorView> {
    let owner_start = blanks_end(output, 0);
    let owner_end = word_end(output, owner_start);
    let mode_start = blanks_end(output, owner_end);
    let mode_end = word_end(output, mode_start);
    if mode_start >= output.len() {
        Err(about(ErrorKind::DoasValidationError, "Invalid stat output"@))
    } else {
        match spec_parse_number(output.subrange(owner_start, owner_end), 10) {
            None => Err(about(ErrorKind::DoasValidationError, "Invalid UID format"@)),
            Some(owner) => Ok(
                (
                    owner,
                    match spec_parse_number(output.subrange(mode_start, mode_end), 8) {
                        Some(mode) => mode,
                        None => DEFAULT_MODE,
                    },
                ),
            ),
        }
    }
}

/// The value of a result that holds an owner and permission bits, or an error.
pub open spec fn stat_result(result: Result<(u32, u32), DoaseditError>) -> Result<
    (u32, u32),
    ErrorView,
> {
    match result {
        Ok(pair) => Ok(pair),
        Err(error) => Err(error@),
    }
}

/// A run of digits that writes a number has only prefixes that write numbers,
/// none of them larger.
proof fn lemma_digits_prefix(digits: Seq<u8>, radix: u32, k: int)
    requires
        0 <= k <= digits.len(),
        digits_value(digits, radix) is Some,
    ensures
        digits_value(digits.take(k), radix) is Some,
        digits_value(digits.take(k), radix)->0 <= digits_value(digits, radix)->0,
    decreases digits.len(),
{
    if k == digits.len() {
        assert(digits.take(k) =~= digits);
    } else {
        let shorter = digits.drop_last();
        lemma_digits_prefix(shorter, radix, k);
        assert(shorter.take(k) =~= digits.take(k));
        let value = digits_value(shorter, radix)->0;
        if radix >= 1 {
            assert(value * radix >= value) by (nonlinear_arith)
                requires
                    value >= 0,
                    radix >= 1,
            ;
        }
    }
}

fn is_wide_blank_at(first: u8, second: u8, third: u8) -> (blank: bool)
    ensures
        blank == is_wide_blank(first, second, third),
{
    if first == 0xe1 {
        second == 0x9a && third == 0x80
    } else if first == 0xe2 && second == 0x80 {
        (0x80 <= third && third <= 0x8a) || third == 0xa8 || third == 0xa9 || third == 0xaf
    } else if first == 0xe2 {
        second == 0x81 && third == 0x9f
    } else {
        first == 0xe3 && second == 0x80 && third == 0x80
    }
}

fn blank_length(bytes: &[u8], at: usize) -> (length: usize)
    requires
        at <= bytes@.len(),
    ensures
        length == blank_len(bytes@, at as int),
        at + length <= bytes@.len(),
{
    let n = bytes.len();
    if at >= n {
        return 0;
    }
    let first = bytes[at];
    if first == 0x20 || (0x09 <= first && first <= 0x0d) {
        1
    } else if n - at >= 2 && first == 0xc2 && (bytes[at + 1] == 0x85 || bytes[at + 1] == 0xa0) {
        2
    } else if n - at >= 3 && is_wide_blank_at(first, bytes[at + 1], bytes[at + 2]) {
        3
    } else {
        0
    }
}

fn skip_blanks(bytes: &[u8], from: usize) -> (end: usize)
    requires
        from <= bytes@.len(),
    ensures
        end == blanks_end(bytes@, from as int),
        from <= end <= bytes@.len(),
{
    let n = bytes.len();
    let mut i: usize = from;
    loop
        invariant
            n == bytes@.len(),
            from <= i <= bytes@.len(),
            blanks_end(bytes@, from as int) == blanks_end(bytes@, i as int),
        ensures
            from <= i <= bytes@.len(),
            i == blanks_end(bytes@, from as int),
        decreases bytes@.len() - i,
    {
        let length = blank_length(bytes, i);
        if length == 0 {
            break;
        }
        i += length;
    }
    i
}

fn skip_word(bytes: &[u8], from: usize) -> (end: usize)
    requires
        from <= bytes@.len(),
    ensures
        end == word_end(bytes@, from as int),
        from <= end <= bytes@.len(),
{
    let mut i: usize = from;
    while i < bytes.len() && blank_length(bytes, i) == 0
        invariant
            from <= i <= bytes@.len(),
            word_end(bytes@, from as int) == word_end(bytes@, i as int),
        decreases bytes@.len() - i,
    {
        i += 1;
    }
    i
}

/// The number that the word `bytes[start..end]` writes in the given radix.
fn parse_number(bytes: &[u8], start: usize, end: usize, radix: u32) -> (number: Option<u32>)
    requires
        start <= end <= bytes@.len(),
        2 <= radix <= 10,
    ensures
        number == spec_parse_number(bytes@.subrange(start as int, end as int), radix),
{
    let mut i: usize = start;
    if i < end && bytes[i] == 0x2b {
        i += 1;
    }
    let first = i;
    let ghost digits = bytes@.subrange(first as int, end as int);
    if i == end {
        return None;
    }
    let mut value: u64 = 0;
    while i < end
        invariant
            start <= first <= i <= end <= bytes@.len(),
            2 <= radix <= 10,
            value <= u32::MAX,
            digits == bytes@.subrange(first as int, end as int),
            digits == digits_of(bytes@.subrange(start as int, end as int)),
            digits_value(bytes@.subrange(first as int, i as int), radix) == Some(value as nat),
        decreases end - i,
    {
        let byte = bytes[i];
        let ghost seen = bytes@.subrange(first as int, i as int);
        let ghost longer = bytes@.subrange(first as int, i + 1);
        assert(longer.drop_last() =~= seen);
        assert(digits.take(i + 1 - first) =~= longer);
        if byte < 0x30 || (byte - 0x30) as u32 >= radix {
            proof {
                if digits_value(digits, radix) is Some {
                    lemma_digits_prefix(digits, radix, i + 1 - first);
                }
            }
            return None;
        }
        let digit = (byte - 0x30) as u64;
        assert(value * (radix as u64) <= 0xffff_ffff * 10) by (nonlinear_arith)
            requires
                value <= 0xffff_ffff,
                radix <= 10,
        ;
        let next = value * (radix as u64) + digit;
        if next > 0xffff_ffff {
            proof {
                if digits_value(digits, radix) is Some {
                    lemma_digits_prefix(digits, radix, i + 1 - first);
                }
            }
            return None;
        }
        value = next;
        i += 1;
    }
    Some(value as u32)
}

/// Reads the owner and the permission bits out of the helper's answer to a
/// metadata query.
pub fn parse_stat_output(output: &[u8]) -> (result: Result<(u32, u32), DoaseditError>)
    ensures
        stat_result(result) == spec_parse_stat_output(output@),
{
    let owner_start = skip_blanks(output, 0);
    let owner_end = skip_word(output, owner_start);
    let mode_start = skip_blanks(output, owner_end);
    let mode_end = skip_word(output, mode_start);
    if mode_start >= output.len() {
        return Err(doas_validation_error("Invalid stat output"));
    }
    match parse_number(output, owner_start, owner_end, 10) {
        None => Err(doas_validation_error("Invalid UID format")),
        Some(owner) => {
            let mode = match parse_number(output, mode_start, mode_end, 8) {
                Some(mode) => mode,
                None => DEFAULT_MODE,
            };
            Ok((owner, mode))
        },
    }
}

/// What the helper's run of a metadata query yields: an error where the helper
/// did not run or refused, else what its answer says.
pub open spec fn spec_file_metadata_with_doas(event: EventView) -> Result<(u32, u32), ErrorView> {
    match event {
        EventView::Exited { success, output } => if success {
            spec_parse_stat_output(output)
        } else {
            Err(plain(ErrorKind::DoasCatPermissionDenied))
        },
        _ => Err(plain(ErrorKind::DoasUnavailable)),
    }
}

/// The owner and the permission bits of a file that only the privilege helper
/// can look at, from the outcome of the helper's metadata query.
pub fn get_file_metadata_with_doas(event: &Event) -> (result: Result<(u32, u32), DoaseditError>)
    ensures
        stat_result(result) == spec_file_metadata_with_doas(event@),
{
    match event {
        Event::Exited { success, output } => if *success {
            parse_stat_output(output.as_slice())
        } else {
            Err(doas_cat_permission_denied())
        },
        _ => Err(doas_unavailable()),
    }
}

} // verus!

//! A packaged skin: a ZIP archive held in memory.

use crate::skin::{SkinError, SkinFailure};
use crate::text::strings;
use vstd::prelude::*;

verus! {

#[verifier::external_type_specification]
#[verifier::external_body]
#[verifier::reject_recursive_types(R)]
pub struct ExZipArchive<R>(zip::ZipArchive<R>);

#[verifier::external_type_specification]
#[verifier::external_body]
#[verifier::reject_recursive_types(T)]
pub struct ExCursor<T>(std::io::Cursor<T>);

/// At index `p` of the bytes stands the signature of a central directory
/// header whose entry offset, 42 bytes on, is the mark `0xFFFFFFFF` that
/// sends the reader to a 64-bit offset in the header's extra field.
pub open spec fn wide_offset_at(data: Seq<u8>, p: int) -> bool {
    &&& 0 <= p && p + 46 <= data.len()
    &&& data[p] == 0x50 && data[p + 1] == 0x4b && data[p + 2] == 0x01 && data[p + 3] == 0x02
    &&& data[p + 42] == 0xff && data[p + 43] == 0xff && data[p + 44] == 0xff && data[p + 45]
        == 0xff
}

/// Nowhere in the bytes stands a central directory header that sends the
/// reader to a 64-bit entry offset.
pub open spec fn narrow_offsets(data: Seq<u8>) -> bool {
    forall|p: int| !wide_offset_at(data, p)
}

/// The names of the entries of the archive that the bytes `data` hold;
/// `None` where the bytes cannot be opened as an archive.
pub uninterp spec fn archive_names(data: Seq<u8>) -> Option<Set<Seq<char>>>;

/// The names of the entries of the package that the bytes hold; `None` where
/// the bytes are refused for a 64-bit entry offset or cannot be opened as an
/// archive.
pub open spec fn package_names(data: Seq<u8>) -> Option<Set<Seq<char>>> {
    if narrow_offsets(data) {
        archive_names(data)
    } else {
        None
    }
}

/// What reading an entry of a packaged skin comes to.
pub enum EntryRead {
    /// The archive has no entry of that name, or cannot set up the reading
    /// of the entry.
    Refused,
    /// The entry is there, but its bytes cannot be unpacked.
    Unreadable,
    /// The unpacked bytes of the entry.
    Unpacked(Seq<u8>),
}

/// What reading the entry called `name` of the archive that the bytes `data`
/// hold comes to.
pub uninterp spec fn archive_entry(data: Seq<u8>, name: Seq<char>) -> EntryRead;

/// The bytes that an opened archive reads from.
pub uninterp spec fn archive_bytes(archive: zip::ZipArchive<std::io::Cursor<&[u8]>>) -> Seq<u8>;

/// `listing` names each member of `names` exactly once and nothing else.
pub open spec fn lists(listing: Seq<Seq<char>>, names: Set<Seq<char>>) -> bool {
    listing.no_duplicates() && listing.to_set() == names
}

/// `zip::ZipArchive::new` on a cursor over the bytes. Opening reads the
/// archive's central directory and fails with the crate's error where that
/// cannot be done; the opened archive reads from the bytes it was given.
///
/// For each central directory header the reader adds the entry's offset to
/// the number of bytes that stand before the archive, in 64 bits. The offset
/// is a 32-bit field of the header unless that field is `0xFFFFFFFF`; then it
/// is taken, as any 64-bit number, from the extra field, and the sum can pass
/// 64 bits, which stops a program built with overflow checks. Every header
/// that is read begins with the header signature, so bytes that hold no
/// signature with that mark 42 bytes on are kept to 32-bit offsets, and the
/// bytes before the archive are never more than the package holds.
#[verifier::external_body]
fn zip_open<'a>(data: &'a [u8]) -> (r: Result<
    zip::ZipArchive<std::io::Cursor<&'a [u8]>>,
    zip::result::ZipError,
>)
    requires
        narrow_offsets(data@),
    ensures
        r is Ok <==> archive_names(data@) is Some,
        r matches Ok(archive) ==> archive_bytes(archive) == data@,
{
    zip::ZipArchive::new(std::io::Cursor::new(data))
}

/// `zip::result::ZipError::UnsupportedArchive` with the given reason: the
/// crate's error for an archive that it does not support.
#[verifier::external_body]
fn unsupported_archive(reason: &'static str) -> zip::result::ZipError {
    zip::result::ZipError::UnsupportedArchive(reason)
}

/// `zip::ZipArchive::file_names`: walks the keys of the archive's name
/// table, so it gives every entry name once, in no promised order.
#[verifier::external_body]
fn zip_file_names(archive: &zip::ZipArchive<std::io::Cursor<&[u8]>>) -> (listing: Vec<String>)
    ensures
        archive_names(archive_bytes(*archive)) matches Some(names) ==> lists(
            strings(listing@),
            names,
        ),
{
    archive.file_names().map(|name| name.to_string()).collect()
}

/// `zip::ZipArchive::by_name` and, on the entry found, `Read::read_to_end`.
/// `by_name` looks the name up as it is written and sets up the entry's
/// reader; a failure of it comes back as the crate's error. Reading to the
/// end unpacks the entry and compares its checksum; a failure of that comes
/// back as the I/O error inside. The archive reads from the same bytes
/// afterwards.
#[verifier::external_body]
fn zip_read(archive: &mut zip::ZipArchive<std::io::Cursor<&[u8]>>, name: &str) -> (r: Result<
    Result<Vec<u8>, std::io::Error>,
    zip::result::ZipError,
>)
    ensures
        archive_bytes(*final(archive)) == archive_bytes(*old(archive)),
        match r {
            Err(_) => archive_entry(archive_bytes(*old(archive)), name@) is Refused,
            Ok(Err(_)) => archive_entry(archive_bytes(*old(archive)), name@) is Unreadable,
            Ok(Ok(bytes)) => archive_entry(archive_bytes(*old(archive)), name@)
                == EntryRead::Unpacked(bytes@),
        },
{
    let mut file = archive.by_name(name)?;
    let mut bytes = Vec::new();
    Ok(std::io::Read::read_to_end(&mut file, &mut bytes).map(|_| bytes))
}

/// Decides whether the bytes hold no central directory header that asks for
/// a 64-bit entry offset.
pub fn has_narrow_offsets(data: &[u8]) -> (narrow: bool)
    ensures
        narrow == narrow_offsets(data@),
{
    let n = data.len();
    if n < 46 {
        return true;
    }
    let mut p: usize = 0;
    while p <= n - 46
        invariant
            n == data@.len(),
            46 <= n,
            p <= n - 45,
            forall|q: int| q < p ==> !wide_offset_at(data@, q),
        decreases n - p,
    {
        if data[p] == 0x50 && data[p + 1] == 0x4b && data[p + 2] == 0x01 && data[p + 3] == 0x02
            && data[p + 42] == 0xff && data[p + 43] == 0xff && data[p + 44] == 0xff && data[p
            + 45] == 0xff {
            assert(wide_offset_at(data@, p as int));
            return false;
        }
        p = p + 1;
    }
    true
}

/// An opened skin package.
pub struct SkinPackage<'a> {
    archive: zip::ZipArchive<std::io::Cursor<&'a [u8]>>,
}

impl<'a> View for SkinPackage<'a> {
    type V = Seq<u8>;

    /// The bytes of the package.
    closed spec fn view(&self) -> Seq<u8> {
        archive_bytes(self.archive)
    }
}

impl<'a> SkinPackage<'a> {
    /// The bytes of the package are those of an archive that opens, as they
    /// are for every package that `open` gave.
    pub open spec fn wf(&self) -> bool {
        package_names(self@) is Some
    }

    /// Opens the package that the bytes hold. Bytes with a central directory
    /// header that asks for a 64-bit entry offset are refused as an archive
    /// that is not supported.
    pub fn open(data: &'a [u8]) -> (r: Result<SkinPackage<'a>, SkinError>)
        ensures
            match r {
                Ok(package) => package@ == data@ && package.wf(),
                Err(e) => package_names(data@) is None && e@ == SkinFailure::Zip,
            },
    {
        if !has_narrow_offsets(data) {
            return Err(
                SkinError::Zip(unsupported_archive("64-bit entry offsets are not supported")),
            );
        }
        match zip_open(data) {
            Ok(archive) => Ok(SkinPackage { archive }),
            Err(e) => Err(SkinError::Zip(e)),
        }
    }

    /// The names of the entries of the package, each once, in no fixed
    /// order.
    pub fn file_names(&self) -> (listing: Vec<String>)
        requires
            self.wf(),
        ensures
            lists(strings(listing@), package_names(self@)->Some_0),
    {
        zip_file_names(&self.archive)
    }

    /// Unpacks the entry called `name`, the name taken as it is written.
    pub fn read(&mut self, name: &str) -> (r: Result<Vec<u8>, SkinError>)
        ensures
            final(self)@ == old(self)@,
            match r {
                Ok(bytes) => archive_entry(old(self)@, name@) == EntryRead::Unpacked(bytes@),
                Err(e) => match archive_entry(old(self)@, name@) {
                    EntryRead::Refused => e@ == SkinFailure::Zip,
                    EntryRead::Unreadable => e@ == SkinFailure::Io,
                    EntryRead::Unpacked(_) => false,
                },
            },
    {
        match zip_read(&mut self.archive, name) {
            Ok(Ok(bytes)) => Ok(bytes),
            Ok(Err(e)) => Err(SkinError::Io(e)),
            Err(e) => Err(SkinError::Zip(e)),
        }
    }
}

} // verus!

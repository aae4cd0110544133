//! Files inside zip archives.
use vstd::prelude::*;

use crate::error::Error;
use crate::text;

verus! {

/// `zip::result::ZipError`, carried through as it came.
#[verifier::external_type_specification]
#[verifier::external_body]
pub struct ExZipError(zip::result::ZipError);

/// What a zip archive holds under a name, unpacked; nothing, where the archive, its entry or the entry's data cannot
/// be read.
pub uninterp spec fn unpacked(archive: Seq<u8>, name: Seq<char>) -> Option<Seq<u8>>;

/// `zip::ZipArchive::new` over the bytes, `zip::ZipArchive::by_name`, and reading that entry to its end: the data of
/// the entry, or an error. Which of the two, and the data, depend on the bytes and the name alone. Not stated is what
/// makes an archive readable, nor which error comes when it is not.
#[verifier::external_body]
pub(crate) fn unpack(archive: &[u8], name: &str) -> (data: Result<Vec<u8>, zip::result::ZipError>)
    ensures
        data matches Ok(d) ==> unpacked(archive@, name@) == Some(d@),
        data is Err ==> unpacked(archive@, name@) is None,
{
    let mut opened = zip::ZipArchive::new(std::io::Cursor::new(archive))?;
    let mut entry = opened.by_name(name)?;
    let mut data = Vec::new();
    std::io::Read::read_to_end(&mut entry, &mut data)?;
    Ok(data)
}

/// The name of a file in an archive: a path may be written with `./` in front.
pub fn archive_name(path: &str) -> (name: String)
    ensures
        name@ == (if text::has_prefix(path@, "./"@) {
            path@.skip(2)
        } else {
            path@
        }),
{
    proof {
        reveal_strlit("./");
    }
    match text::strip_prefix(path, "./") {
        Some(rest) => {
            assert(rest@ =~= path@.skip(2));
            rest
        },
        None => path.to_owned(),
    }
}

/// Unpacks the unbrick image out of its archive.
pub fn unbrick_image(archive: &[u8]) -> (image: Result<Vec<u8>, Error>)
    ensures
        image is Ok <==> unpacked(archive@, "unbrick.bin"@) is Some,
        image matches Ok(data) ==> unpacked(archive@, "unbrick.bin"@) == Some(data@),
        image matches Err(e) ==> e is Zip,
{
    match unpack(archive, "unbrick.bin") {
        Ok(data) => Ok(data),
        Err(e) => Err(Error::Zip(e)),
    }
}

} // verus!

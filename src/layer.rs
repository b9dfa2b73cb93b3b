use vstd::prelude::*;

use crate::entry_path::{path_stays_inside, stays_inside};

verus! {

/// Why a layer blob cannot be unpacked.
#[derive(Clone, Copy, Debug, PartialEq, Eq, Structural)]
pub enum LayerError {
    /// The blob is not a valid gzip stream.
    Decompress,
    /// The decompressed bytes are not a readable tar archive.
    CorruptArchive,
    /// An entry's path would land outside the staging directory.
    UnsafePath,
    /// The blob could not be downloaded, or unpacking it onto disk failed.
    Transfer,
}

pub open spec fn byte_strings(v: Seq<Vec<u8>>) -> Seq<Seq<u8>> {
    v.map_values(|b: Vec<u8>| b@)
}

pub open spec fn bytes_view(r: Option<Vec<u8>>) -> Option<Seq<u8>> {
    match r {
        Some(v) => Some(v@),
        None => None,
    }
}

pub open spec fn listing_view(r: Option<Vec<Vec<u8>>>) -> Option<Seq<Seq<u8>>> {
    match r {
        Some(v) => Some(byte_strings(v@)),
        None => None,
    }
}

/// What a gzip decoder makes of `data`: the decompressed bytes, or `None`
/// where it is not a valid gzip stream.
pub uninterp spec fn gunzip_of(data: Seq<u8>) -> Option<Seq<u8>>;

/// The entry paths that a tar reader finds in `data`, in archive order, or
/// `None` where it cannot read the archive.
pub uninterp spec fn tar_entry_paths_of(data: Seq<u8>) -> Option<Seq<Seq<u8>>>;

/// Relies on flate2's `read::GzDecoder` read to the end: the decompressed
/// bytes of the gzip stream, or `None` where decoding fails.
#[verifier::external_body]
fn gunzip(data: &Vec<u8>) -> (r: Option<Vec<u8>>)
    ensures
        bytes_view(r) == gunzip_of(data@),
{
    let mut out = Vec::new();
    let mut decoder = flate2::read::GzDecoder::new(data.as_slice());
    match std::io::Read::read_to_end(&mut decoder, &mut out) {
        Ok(_) => Some(out),
        Err(_) => None,
    }
}

/// Relies on tar's `Archive::entries` and `Entry::path_bytes`: the raw path of
/// each entry in order (long names and pax paths applied), or `None` where an
/// entry header cannot be read.
#[verifier::external_body]
fn tar_entry_paths(data: &Vec<u8>) -> (r: Option<Vec<Vec<u8>>>)
    ensures
        listing_view(r) == tar_entry_paths_of(data@),
{
    let mut archive = tar::Archive::new(data.as_slice());
    let entries = match archive.entries() {
        Ok(e) => e,
        Err(_) => return None,
    };
    entries.map(|e| e.map(|e| e.path_bytes().into_owned())).collect::<Result<Vec<Vec<u8>>, _>>().ok()
}

pub open spec fn all_inside(paths: Seq<Seq<u8>>) -> bool {
    forall|i: int| 0 <= i < paths.len() ==> stays_inside(#[trigger] paths[i])
}

/// The index of the first path that leaves the destination directory, if any.
pub fn first_escaping_path(paths: &Vec<Vec<u8>>) -> (r: Option<usize>)
    ensures
        r is None <==> all_inside(byte_strings(paths@)),
        r matches Some(i) ==> i < paths.len() && !stays_inside(paths@[i as int]@) && all_inside(
            byte_strings(paths@.subrange(0, i as int)),
        ),
{
    let mut i: usize = 0;
    while i < paths.len()
        invariant
            i <= paths.len(),
            forall|j: int| 0 <= j < i ==> stays_inside(#[trigger] paths@[j]@),
        decreases paths.len() - i,
    {
        if !path_stays_inside(&paths[i]) {
            assert(byte_strings(paths@)[i as int] == paths@[i as int]@);
            return Some(i);
        }
        i = i + 1;
    }
    None
}

/// What becomes of a layer, given what the gzip decoder and the tar reader
/// made of it: the archive to unpack, or why it is refused.
pub open spec fn layer_verdict(decoded: Option<Seq<u8>>, listing: Option<Seq<Seq<u8>>>) -> Result<
    Seq<u8>,
    LayerError,
> {
    match decoded {
        None => Err(LayerError::Decompress),
        Some(archive) => match listing {
            None => Err(LayerError::CorruptArchive),
            Some(paths) => if all_inside(paths) {
                Ok(archive)
            } else {
                Err(LayerError::UnsafePath)
            },
        },
    }
}

pub open spec fn archive_result_view(r: Result<Vec<u8>, LayerError>) -> Result<Seq<u8>, LayerError> {
    match r {
        Ok(v) => Ok(v@),
        Err(e) => Err(e),
    }
}

/// Decides on a layer from its decompressed bytes and its entry listing.
pub fn judge_layer(decoded: Option<Vec<u8>>, listing: Option<Vec<Vec<u8>>>) -> (r: Result<
    Vec<u8>,
    LayerError,
>)
    ensures
        archive_result_view(r) == layer_verdict(bytes_view(decoded), listing_view(listing)),
{
    match decoded {
        None => Err(LayerError::Decompress),
        Some(archive) => match listing {
            None => Err(LayerError::CorruptArchive),
            Some(paths) => match first_escaping_path(&paths) {
                None => Ok(archive),
                Some(_) => Err(LayerError::UnsafePath),
            },
        },
    }
}

/// What becomes of a downloaded layer blob.
pub open spec fn blob_verdict(blob: Seq<u8>) -> Result<Seq<u8>, LayerError> {
    match gunzip_of(blob) {
        None => Err(LayerError::Decompress),
        Some(archive) => layer_verdict(Some(archive), tar_entry_paths_of(archive)),
    }
}

/// Decompresses a downloaded layer blob and checks every entry path of the
/// archive inside it; the archive comes back only where all of them stay
/// inside the staging directory.
pub fn decode_layer(blob: &Vec<u8>) -> (r: Result<Vec<u8>, LayerError>)
    ensures
        archive_result_view(r) == blob_verdict(blob@),
{
    match gunzip(blob) {
        None => Err(LayerError::Decompress),
        Some(archive) => {
            let listing = tar_entry_paths(&archive);
            judge_layer(Some(archive), listing)
        },
    }
}

/// An archive with any entry whose path leaves the staging directory is
/// refused as a whole: nothing of it is handed on to be unpacked.
pub proof fn lemma_escaping_entry_refuses_layer(archive: Seq<u8>, paths: Seq<Seq<u8>>, i: int)
    requires
        0 <= i < paths.len(),
        !stays_inside(paths[i]),
    ensures
        layer_verdict(Some(archive), Some(paths)) == Err::<Seq<u8>, LayerError>(
            LayerError::UnsafePath,
        ),
{
}

} // verus!

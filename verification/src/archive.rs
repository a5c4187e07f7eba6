//! The archive extractor: from the downloaded payload to the list of
//! directories and files that are to be written below the installation target.

use std::io::Read;
use vstd::prelude::*;
use crate::failure::Failure;

verus! {

/// `std::io::Error`, which the decoders report; it is only carried through.
#[verifier::external_type_specification]
#[verifier::external_body]
pub struct ExIoError(std::io::Error);

/// One member of a tar archive, as the archive records it.
#[derive(Debug, PartialEq, Eq)]
pub struct ArchiveEntry {
    /// The header marks the member as a directory.
    pub is_dir: bool,
    /// The header marks the member as a regular file.
    pub is_file: bool,
    /// The path recorded for the member, relative to the archive's root.
    pub path: Vec<u8>,
    /// The member's contents.
    pub data: Vec<u8>,
}

/// The mathematical value of an [`ArchiveEntry`].
pub struct EntryView {
    pub is_dir: bool,
    pub is_file: bool,
    pub path: Seq<u8>,
    pub data: Seq<u8>,
}

impl View for ArchiveEntry {
    type V = EntryView;

    open spec fn view(&self) -> EntryView {
        EntryView { is_dir: self.is_dir, is_file: self.is_file, path: self.path@, data: self.data@ }
    }
}

/// One step of materialising the archive. Paths are relative to the
/// installation target and are exactly those of the archive.
#[derive(Debug, PartialEq, Eq)]
pub enum FsOp {
    /// Create the directory and every missing ancestor of it.
    CreateDirAll { path: Vec<u8> },
    /// Create the file and fill it with `data`.
    WriteFile { path: Vec<u8>, data: Vec<u8> },
}

/// The mathematical value of an [`FsOp`].
pub enum FsOpView {
    CreateDirAll { path: Seq<u8> },
    WriteFile { path: Seq<u8>, data: Seq<u8> },
}

impl View for FsOp {
    type V = FsOpView;

    open spec fn view(&self) -> FsOpView {
        match self {
            FsOp::CreateDirAll { path } => FsOpView::CreateDirAll { path: path@ },
            FsOp::WriteFile { path, data } => FsOpView::WriteFile { path: path@, data: data@ },
        }
    }
}

/// The values of a list of entries, in order.
pub open spec fn entry_views(entries: Seq<ArchiveEntry>) -> Seq<EntryView> {
    Seq::new(entries.len(), |i: int| entries[i]@)
}

/// The values of a list of steps, in order.
pub open spec fn op_views(ops: Seq<FsOp>) -> Seq<FsOpView> {
    Seq::new(ops.len(), |i: int| ops[i]@)
}

/// What is written for one entry: a directory for a directory, a file with
/// the same bytes for a regular file, nothing for any other kind of member
/// (links, devices and the like).
pub open spec fn op_for(entry: EntryView) -> Option<FsOpView> {
    if entry.is_dir {
        Some(FsOpView::CreateDirAll { path: entry.path })
    } else if entry.is_file {
        Some(FsOpView::WriteFile { path: entry.path, data: entry.data })
    } else {
        None
    }
}

/// The steps for a whole archive: those of its entries, in archive order.
pub open spec fn planned(entries: Seq<EntryView>) -> Seq<FsOpView>
    decreases entries.len(),
{
    if entries.len() == 0 {
        Seq::empty()
    } else {
        let before = planned(entries.drop_last());
        match op_for(entries.last()) {
            Some(op) => before.push(op),
            None => before,
        }
    }
}

/// Planning goes member by member: the steps for two runs of members, one
/// after the other, are the steps for the first followed by those for the
/// second.
pub proof fn planned_distributes(front: Seq<EntryView>, back: Seq<EntryView>)
    ensures
        planned(front + back) == planned(front) + planned(back),
    decreases back.len(),
{
    if back.len() == 0 {
        assert(front + back =~= front);
        assert(planned(front) + planned(back) =~= planned(front));
    } else {
        let all = front + back;
        assert(all.drop_last() =~= front + back.drop_last());
        assert(all.last() == back.last());
        planned_distributes(front, back.drop_last());
        match op_for(back.last()) {
            Some(op) => {
                assert(planned(all) =~= planned(front) + planned(back));
            },
            None => {},
        }
    }
}

/// A regular file is written under the path that the archive records and
/// with the bytes that the archive holds, in its place among the other
/// steps, whatever comes before and after it.
pub proof fn file_is_written_as_recorded(
    before: Seq<EntryView>,
    path: Seq<u8>,
    data: Seq<u8>,
    after: Seq<EntryView>,
)
    ensures
        planned(
            before + seq![EntryView { is_dir: false, is_file: true, path, data }] + after,
        ) == planned(before) + seq![FsOpView::WriteFile { path, data }] + planned(after),
{
    let one = seq![EntryView { is_dir: false, is_file: true, path, data }];
    assert(one.drop_last() =~= Seq::<EntryView>::empty());
    assert(planned(one) =~= seq![FsOpView::WriteFile { path, data }]) by {
        assert(planned(one.drop_last()) =~= Seq::<FsOpView>::empty());
    }
    planned_distributes(before, one);
    planned_distributes(before + one, after);
}

/// A directory is created under the path that the archive records, in its
/// place among the other steps.
pub proof fn directory_is_created_as_recorded(
    before: Seq<EntryView>,
    entry: EntryView,
    after: Seq<EntryView>,
)
    requires
        entry.is_dir,
    ensures
        planned(before + seq![entry] + after) == planned(before) + seq![
            FsOpView::CreateDirAll { path: entry.path },
        ] + planned(after),
{
    let one = seq![entry];
    assert(one.drop_last() =~= Seq::<EntryView>::empty());
    assert(planned(one) =~= seq![FsOpView::CreateDirAll { path: entry.path }]) by {
        assert(planned(one.drop_last()) =~= Seq::<FsOpView>::empty());
    }
    planned_distributes(before, one);
    planned_distributes(before + one, after);
}

/// A member that is neither a directory nor a regular file leaves no
/// trace: the steps are those of the archive without it.
pub proof fn other_kinds_are_skipped(
    before: Seq<EntryView>,
    entry: EntryView,
    after: Seq<EntryView>,
)
    requires
        !entry.is_dir,
        !entry.is_file,
    ensures
        planned(before + seq![entry] + after) == planned(before) + planned(after),
{
    let one = seq![entry];
    assert(one.drop_last() =~= Seq::<EntryView>::empty());
    assert(planned(one) =~= Seq::<FsOpView>::empty()) by {
        assert(planned(one.drop_last()) =~= Seq::<FsOpView>::empty());
    }
    planned_distributes(before, one);
    planned_distributes(before + one, after);
    assert(planned(before) + planned(one) =~= planned(before));
}

/// The bytes that `flate2::read::MultiGzDecoder` yields when it reads a
/// gzip stream (of one or several members) to its end, or `None` where it
/// reports an error.
pub uninterp spec fn gunzip(payload: Seq<u8>) -> Option<Seq<u8>>;

/// The members that `tar::Archive` finds in a tar stream when it walks its
/// raw entries, each with what its header says of its kind, its recorded
/// path and its contents; `None` where the walk reports an error.
pub uninterp spec fn tar_entries(stream: Seq<u8>) -> Option<Seq<EntryView>>;

/// What unpacking a payload writes: the steps planned for the members of
/// the decompressed stream, or `None` where either decoder fails.
pub open spec fn unpacked(payload: Seq<u8>) -> Option<Seq<FsOpView>> {
    match gunzip(payload) {
        Some(stream) => match tar_entries(stream) {
            Some(entries) => Some(planned(entries)),
            None => None,
        },
        None => None,
    }
}

/// Runs `flate2::read::MultiGzDecoder` over `payload` until its end. The
/// contract only names the outcome: the decoder computes it from the bytes
/// alone.
#[verifier::external_body]
fn decompress(payload: &[u8]) -> (r: Result<Vec<u8>, std::io::Error>)
    ensures
        match r {
            Ok(stream) => gunzip(payload@) == Some(stream@),
            Err(_) => gunzip(payload@).is_none(),
        },
{
    let mut stream = Vec::new();
    flate2::read::MultiGzDecoder::new(payload).read_to_end(&mut stream)?;
    Ok(stream)
}

/// Walks the raw entries of `tar::Archive` over `stream` and copies from
/// each what `EntryType::is_dir`, `EntryType::is_file` and
/// `Entry::path_bytes` return and what reading the entry yields. The
/// contract only names the outcome: the walk computes it from the bytes
/// alone.
#[verifier::external_body]
fn read_entries(stream: &[u8]) -> (r: Result<Vec<ArchiveEntry>, std::io::Error>)
    ensures
        match r {
            Ok(entries) => tar_entries(stream@) == Some(entry_views(entries@)),
            Err(_) => tar_entries(stream@).is_none(),
        },
{
    let mut entries = Vec::new();
    let mut archive = tar::Archive::new(stream);
    for item in archive.entries()?.raw(true) {
        let mut entry = item?;
        let kind = entry.header().entry_type();
        let path = entry.path_bytes().into_owned();
        let mut data = Vec::new();
        entry.read_to_end(&mut data)?;
        entries.push(ArchiveEntry { is_dir: kind.is_dir(), is_file: kind.is_file(), path, data });
    }
    Ok(entries)
}

/// A copy of a byte string.
fn copy_bytes(bytes: &Vec<u8>) -> (r: Vec<u8>)
    ensures
        r@ == bytes@,
{
    let mut out: Vec<u8> = Vec::new();
    let mut i: usize = 0;
    while i < bytes.len()
        invariant
            i <= bytes.len(),
            out@ == bytes@.take(i as int),
        decreases bytes.len() - i,
    {
        out.push(bytes[i]);
        assert(bytes@.take(i + 1) == bytes@.take(i as int).push(bytes@[i as int]));
        i += 1;
    }
    assert(bytes@.take(bytes.len() as int) == bytes@);
    out
}

/// Plans the extraction of a list of archive members: members that are
/// neither directories nor regular files are passed over, every other
/// member gives one step with its path and bytes unchanged, and the steps
/// keep the order of the archive.
pub fn plan_extraction(entries: &Vec<ArchiveEntry>) -> (ops: Vec<FsOp>)
    ensures
        op_views(ops@) == planned(entry_views(entries@)),
{
    let mut ops: Vec<FsOp> = Vec::new();
    let mut i: usize = 0;
    let ghost all = entry_views(entries@);
    assert(all.take(0).len() == 0);
    assert(op_views(ops@) =~= planned(all.take(0)));
    while i < entries.len()
        invariant
            i <= entries.len(),
            all == entry_views(entries@),
            op_views(ops@) == planned(all.take(i as int)),
        decreases entries.len() - i,
    {
        let entry = &entries[i];
        let ghost before = op_views(ops@);
        proof {
            let upto = all.take(i + 1);
            assert(upto.drop_last() == all.take(i as int));
            assert(upto.last() == entry@);
        }
        if entry.is_dir {
            ops.push(FsOp::CreateDirAll { path: copy_bytes(&entry.path) });
            assert(op_views(ops@) =~= before.push(op_for(entry@).unwrap()));
        } else if entry.is_file {
            ops.push(
                FsOp::WriteFile { path: copy_bytes(&entry.path), data: copy_bytes(&entry.data) },
            );
            assert(op_views(ops@) =~= before.push(op_for(entry@).unwrap()));
        }
        i += 1;
    }
    assert(all.take(entries.len() as int) == all);
    ops
}

/// Unpacks a downloaded payload: decompresses it, reads the tar stream and
/// plans what is written. Fails with [`Failure::Archive`] exactly where
/// one of the two decoders does.
pub fn unpack(payload: &[u8]) -> (r: Result<Vec<FsOp>, Failure>)
    ensures
        match r {
            Ok(ops) => unpacked(payload@) == Some(op_views(ops@)),
            Err(e) => unpacked(payload@).is_none() && e == Failure::Archive,
        },
{
    let stream = match decompress(payload) {
        Ok(stream) => stream,
        Err(_) => {
            return Err(Failure::Archive);
        },
    };
    let entries = match read_entries(stream.as_slice()) {
        Ok(entries) => entries,
        Err(_) => {
            return Err(Failure::Archive);
        },
    };
    Ok(plan_extraction(&entries))
}

} // verus!

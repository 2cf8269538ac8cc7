use vstd::prelude::*;

verus! {

/// One side (old or new) of a diff entry, as read from the repository: whether
/// the file exists on that side, its path if the diff records one, and the size
/// of its blob if the blob could be found.
pub struct DiffFileInfo {
    pub exists: bool,
    pub path: Option<String>,
    pub blob_size: Option<usize>,
}

/// A file on one side of a diff entry, with its path and blob size.
pub struct DeltaFileRef {
    path: String,
    size: usize,
}

/// What a `DeltaFileRef` holds.
pub struct DeltaFileRefView {
    pub path: Seq<char>,
    pub size: usize,
}

impl View for DeltaFileRef {
    type V = DeltaFileRefView;

    closed spec fn view(&self) -> DeltaFileRefView {
        DeltaFileRefView { path: self.path@, size: self.size }
    }
}

/// The file reference a diff side gives: none when the file does not exist,
/// when the path is missing, or when its blob could not be found.
pub open spec fn file_ref_of(file: DiffFileInfo) -> Option<DeltaFileRefView> {
    if file.exists && file.path is Some && file.blob_size is Some {
        Some(DeltaFileRefView { path: file.path->0@, size: file.blob_size->0 })
    } else {
        None
    }
}

/// A side of a diff entry gives a file reference exactly when the file
/// exists, has a path and has a blob; the reference then holds that path and
/// the blob's size.
pub proof fn law_file_ref_of(file: DiffFileInfo)
    ensures
        file_ref_of(file) is Some <==> (file.exists && file.path is Some && file.blob_size is Some),
        file_ref_of(file) matches Some(f) ==> f.path == file.path->0@ && f.size == file.blob_size->0,
{
}

impl DeltaFileRef {
    /// The file reference of one side of a diff entry; `None` when the diff
    /// file does not exist, the path is missing, or the blob lookup failed.
    pub fn new(file: &DiffFileInfo) -> (r: Option<Self>)
        ensures
            match r {
                Some(f) => file_ref_of(*file) == Some(f@),
                None => file_ref_of(*file) is None,
            },
    {
        if !file.exists {
            return None;
        }
        let path = match &file.path {
            Some(p) => p.clone(),
            None => return None,
        };
        let size: usize = match file.blob_size {
            Some(size) => size,
            None => return None,
        };
        Some(Self { path, size })
    }

    pub fn size(&self) -> (r: usize)
        ensures
            r == self@.size,
    {
        self.size
    }

    pub fn get_path(&self) -> (r: &str)
        ensures
            r@ == self@.path,
    {
        self.path.as_str()
    }
}

} // verus!

//! Compression kinds and the artifact naming convention.
//!
//! An artifact is named by appending the kind's fixed extension suffix to
//! its source path, and a path is recognized as an artifact exactly when it
//! ends with the extension of some supported kind. Paths are handled as
//! byte strings.

use vstd::prelude::*;

verus! {

/// The closed set of supported compression algorithms. Declaration order is
/// the dispatch order when every kind is requested for one path.
#[derive(Debug, Clone, Copy, PartialEq, Eq, Structural)]
pub enum Compression {
    Gzip,
    Deflate,
    Brotli,
    Zstd,
}

/// The fixed file-extension suffix that names `k`'s artifacts, as bytes.
pub open spec fn ext_of(k: Compression) -> Seq<u8> {
    match k {
        Compression::Gzip => seq![46u8, 103u8, 122u8],
        Compression::Deflate => seq![46u8, 122u8, 122u8],
        Compression::Brotli => seq![46u8, 98u8, 114u8],
        Compression::Zstd => seq![46u8, 122u8, 115u8, 116u8],
    }
}

/// `p` ends with the byte suffix `suffix`.
pub open spec fn ends_with(p: Seq<u8>, suffix: Seq<u8>) -> bool {
    &&& suffix.len() <= p.len()
    &&& forall|i: int|
        0 <= i < suffix.len() ==> p[p.len() - suffix.len() + i] == suffix[i]
}

/// The artifact path for source path `p` and kind `k`: `p` with the kind's
/// extension appended, never replacing an existing extension.
pub open spec fn artifact_path_of(p: Seq<u8>, k: Compression) -> Seq<u8> {
    p + ext_of(k)
}

/// `p` names a compressed artifact: it ends with the extension of some
/// supported kind.
pub open spec fn is_artifact_path(p: Seq<u8>) -> bool {
    ||| ends_with(p, ext_of(Compression::Gzip))
    ||| ends_with(p, ext_of(Compression::Deflate))
    ||| ends_with(p, ext_of(Compression::Brotli))
    ||| ends_with(p, ext_of(Compression::Zstd))
}

/// An owned copy of the byte string `p`.
pub(crate) fn copy_bytes(p: &Vec<u8>) -> (r: Vec<u8>)
    ensures
        r@ == p@,
{
    let mut r: Vec<u8> = Vec::new();
    let mut i: usize = 0;
    while i < p.len()
        invariant
            i <= p.len(),
            r@ == p@.subrange(0, i as int),
        decreases p.len() - i,
    {
        r.push(p[i]);
        proof {
            assert(p@.subrange(0, i + 1) =~= p@.subrange(0, i as int).push(p@[i as int]));
        }
        i += 1;
    }
    proof {
        assert(p@.subrange(0, p@.len() as int) =~= p@);
    }
    r
}

fn ends_with_bytes(p: &Vec<u8>, suffix: &Vec<u8>) -> (r: bool)
    ensures
        r == ends_with(p@, suffix@),
{
    if suffix.len() > p.len() {
        return false;
    }
    let offset = p.len() - suffix.len();
    let mut i: usize = 0;
    while i < suffix.len()
        invariant
            suffix.len() <= p.len(),
            offset == p.len() - suffix.len(),
            i <= suffix.len(),
            forall|j: int| 0 <= j < i ==> p@[offset + j] == suffix@[j],
        decreases suffix.len() - i,
    {
        if p[offset + i] != suffix[i] {
            assert(p@[p@.len() - suffix@.len() + i] != suffix@[i as int]);
            return false;
        }
        i += 1;
    }
    true
}

impl Compression {
    /// Every supported kind, in declaration (dispatch) order.
    pub fn all_kinds() -> (r: Vec<Compression>)
        ensures
            r@ == seq![
                Compression::Gzip,
                Compression::Deflate,
                Compression::Brotli,
                Compression::Zstd,
            ],
    {
        let mut r: Vec<Compression> = Vec::new();
        r.push(Compression::Gzip);
        r.push(Compression::Deflate);
        r.push(Compression::Brotli);
        r.push(Compression::Zstd);
        proof {
            assert(r@ =~= seq![
                Compression::Gzip,
                Compression::Deflate,
                Compression::Brotli,
                Compression::Zstd,
            ]);
        }
        r
    }

    /// The extension suffix used to name this kind's artifacts.
    pub fn file_ext(self) -> (r: Vec<u8>)
        ensures
            r@ == ext_of(self),
    {
        let mut r: Vec<u8> = Vec::new();
        r.push(46u8);
        match self {
            Compression::Gzip => {
                r.push(103u8);
                r.push(122u8);
            }
            Compression::Deflate => {
                r.push(122u8);
                r.push(122u8);
            }
            Compression::Brotli => {
                r.push(98u8);
                r.push(114u8);
            }
            Compression::Zstd => {
                r.push(122u8);
                r.push(115u8);
                r.push(116u8);
            }
        }
        proof {
            assert(r@ =~= ext_of(self));
        }
        r
    }

    /// Whether `path` is itself a compressed artifact. Such a path is never
    /// compressed again, which keeps artifacts from being compounded.
    pub fn is_compressed_file_path(path: &Vec<u8>) -> (r: bool)
        ensures
            r == is_artifact_path(path@),
    {
        let gz = Compression::Gzip.file_ext();
        let zz = Compression::Deflate.file_ext();
        let br = Compression::Brotli.file_ext();
        let zst = Compression::Zstd.file_ext();
        ends_with_bytes(path, &gz) || ends_with_bytes(path, &zz)
            || ends_with_bytes(path, &br) || ends_with_bytes(path, &zst)
    }

    /// The artifact path for `path` and this kind: `path` with the kind's
    /// extension appended.
    pub fn add_ext_to_file(self, path: &Vec<u8>) -> (r: Vec<u8>)
        ensures
            r@ == artifact_path_of(path@, self),
    {
        let mut r = copy_bytes(path);
        let mut e = self.file_ext();
        r.append(&mut e);
        r
    }
}

/// For every source path and supported kind, the artifact path the namer
/// produces is itself recognized as an artifact path.
pub proof fn lemma_artifact_path_recognized(p: Seq<u8>, k: Compression)
    ensures
        is_artifact_path(artifact_path_of(p, k)),
{
    let q = artifact_path_of(p, k);
    assert forall|i: int| 0 <= i < ext_of(k).len() implies q[q.len() - ext_of(k).len() + i]
        == ext_of(k)[i] by {
        assert(q[p.len() + i] == ext_of(k)[i]);
    }
    assert(ends_with(q, ext_of(k)));
}

/// A path that ends with no supported kind's extension is not recognized as
/// an artifact path.
pub proof fn lemma_plain_path_not_artifact(p: Seq<u8>)
    requires
        forall|k: Compression| !ends_with(p, ext_of(k)),
    ensures
        !is_artifact_path(p),
{
    assert(!ends_with(p, ext_of(Compression::Gzip)));
    assert(!ends_with(p, ext_of(Compression::Deflate)));
    assert(!ends_with(p, ext_of(Compression::Brotli)));
    assert(!ends_with(p, ext_of(Compression::Zstd)));
}

} // verus!

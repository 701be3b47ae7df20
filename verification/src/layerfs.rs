//! The layer extractor and the root filesystem it fills.
//!
//! A layer blob is a gzip-compressed tar archive. Decompression and
//! archive decoding are done by outside crates behind trusted
//! wrappers; everything from the decoded entries on is verified. The
//! root filesystem is modelled as the ordered log of every entry every
//! layer wrote; its view is the map that log produces, so "later
//! layers overwrite earlier ones" is the model's definition, and the
//! last-write-wins law is proved below.

use vstd::prelude::*;

use std::io::Read;

use crate::RunError;

verus! {

/// One decoded tar entry: a write of one path.
#[derive(Debug)]
pub struct FileImage {
    /// The path inside the root, as stored in the archive.
    pub path: String,
    /// The tar entry-type byte (regular file, directory, symlink, ...).
    pub kind: u8,
    /// The file mode, as stored in the archive.
    pub mode: u32,
    /// The link target for a symlink entry, empty for the others.
    pub link: String,
    /// The file contents, empty for non-regular entries.
    pub data: Vec<u8>,
}

/// The mathematical value of one entry.
pub ghost struct FileImageV {
    pub path: Seq<char>,
    pub kind: u8,
    pub mode: u32,
    pub link: Seq<char>,
    pub data: Seq<u8>,
}

impl View for FileImage {
    type V = FileImageV;

    open spec fn view(&self) -> FileImageV {
        FileImageV {
            path: self.path@,
            kind: self.kind,
            mode: self.mode,
            link: self.link@,
            data: self.data@,
        }
    }
}

/// The views of a run of entries, in order.
pub open spec fn views_of(s: Seq<FileImage>) -> Seq<FileImageV> {
    s.map_values(|f: FileImage| f@)
}

/// The filesystem that the writes `es`, applied in order to `m`,
/// produce: each write shadows whatever its path held before.
pub open spec fn apply_writes(
    m: Map<Seq<char>, FileImageV>,
    es: Seq<FileImageV>,
) -> Map<Seq<char>, FileImageV>
    decreases es.len(),
{
    if es.len() == 0 {
        m
    } else {
        apply_writes(m, es.drop_last()).insert(es.last().path, es.last())
    }
}

/// Applying two runs of writes one after the other is applying their
/// concatenation.
pub proof fn lemma_apply_writes_concat(
    m: Map<Seq<char>, FileImageV>,
    a: Seq<FileImageV>,
    b: Seq<FileImageV>,
)
    ensures
        apply_writes(m, a + b) == apply_writes(apply_writes(m, a), b),
    decreases b.len(),
{
    if b.len() == 0 {
        assert(a + b =~= a);
    } else {
        lemma_apply_writes_concat(m, a, b.drop_last());
        assert((a + b).drop_last() =~= a + b.drop_last());
    }
}

/// Writes at or after `k` leave every path other than theirs alone;
/// in particular, a path no write of `es` names keeps its old value.
pub proof fn lemma_untouched_path(
    m: Map<Seq<char>, FileImageV>,
    es: Seq<FileImageV>,
    p: Seq<char>,
)
    requires
        forall|j: int| 0 <= j < es.len() ==> es[j].path != p,
    ensures
        apply_writes(m, es).contains_key(p) == m.contains_key(p),
        m.contains_key(p) ==> apply_writes(m, es)[p] == m[p],
    decreases es.len(),
{
    if es.len() > 0 {
        lemma_untouched_path(m, es.drop_last(), p);
    }
}

/// The general last-write-wins law: after the writes `es`, a path
/// holds exactly what the last write naming it wrote.
pub proof fn lemma_last_write_wins(
    m: Map<Seq<char>, FileImageV>,
    es: Seq<FileImageV>,
    k: int,
)
    requires
        0 <= k < es.len(),
        forall|j: int| k < j < es.len() ==> es[j].path != es[k].path,
    ensures
        apply_writes(m, es).contains_key(es[k].path),
        apply_writes(m, es)[es[k].path] == es[k],
    decreases es.len(),
{
    if k == es.len() - 1 {
    } else {
        lemma_last_write_wins(m, es.drop_last(), k);
    }
}

/// Two layers that both write one path: the second layer's content is
/// what the path holds afterwards.
pub proof fn lemma_layer_order(
    m: Map<Seq<char>, FileImageV>,
    a: FileImageV,
    b: FileImageV,
)
    requires
        a.path == b.path,
    ensures
        apply_writes(apply_writes(m, seq![a]), seq![b]).contains_key(b.path),
        apply_writes(apply_writes(m, seq![a]), seq![b])[b.path] == b,
{
    lemma_apply_writes_concat(m, seq![a], seq![b]);
    assert(seq![a] + seq![b] =~= seq![a, b]);
    assert(seq![a, b].drop_last() =~= seq![a]);
}

/// Character-by-character string equality.
pub fn str_eq(a: &str, b: &str) -> (r: bool)
    ensures
        r == (a@ == b@),
{
    let na = a.unicode_len();
    let nb = b.unicode_len();
    if na != nb {
        return false;
    }
    let mut i: usize = 0;
    while i < na
        invariant
            i <= na,
            na == a@.len(),
            na == b@.len(),
            forall|j: int| 0 <= j < i ==> a@[j] == b@[j],
        decreases na - i,
    {
        if a.get_char(i) != b.get_char(i) {
            return false;
        }
        i = i + 1;
    }
    proof {
        assert(a@ =~= b@);
    }
    true
}

/// The root filesystem: the ordered log of every write every layer
/// made, viewed as the map those writes produce.
pub struct RootFs {
    files: Vec<FileImage>,
}

impl View for RootFs {
    type V = Map<Seq<char>, FileImageV>;

    open spec fn view(&self) -> Map<Seq<char>, FileImageV> {
        apply_writes(Map::empty(), self.writes())
    }
}

impl RootFs {
    /// The write log, in order.
    pub closed spec fn writes(self) -> Seq<FileImageV> {
        views_of(self.files@)
    }

    /// A fresh, empty root.
    pub fn new() -> (r: RootFs)
        ensures
            r.writes() == Seq::<FileImageV>::empty(),
            r@ == Map::<Seq<char>, FileImageV>::empty(),
    {
        let r = RootFs { files: Vec::new() };
        proof {
            assert(r.writes() =~= Seq::<FileImageV>::empty());
        }
        r
    }

    /// Every write so far, in order, for the caller that materialises
    /// this root on disk.
    pub fn entries(&self) -> (r: &Vec<FileImage>)
        ensures
            views_of(r@) == self.writes(),
    {
        &self.files
    }

    /// Append one layer's entries, in the layer's own order.
    pub fn apply_layer(&mut self, layer: Vec<FileImage>)
        ensures
            final(self).writes() == old(self).writes() + views_of(layer@),
            final(self)@ == apply_writes(old(self)@, views_of(layer@)),
    {
        let ghost all: Seq<FileImage> = layer@;
        let mut layer = layer;
        while layer.len() > 0
            invariant
                layer@.len() <= all.len(),
                layer@ == all.skip(all.len() - layer@.len()),
                self.writes() == old(self).writes() + views_of(
                    all.take(all.len() - layer@.len()),
                ),
            decreases layer@.len(),
        {
            let ghost done: int = all.len() - layer@.len();
            let ghost prev: Seq<FileImage> = self.files@;
            let f = layer.remove(0);
            let ghost fv = f@;
            proof {
                assert(fv == all[done]@);
            }
            self.files.push(f);
            proof {
                assert(views_of(self.files@) =~= views_of(prev).push(fv));
                assert(views_of(all.take(done + 1)) =~= views_of(all.take(done)).push(fv));
                assert(views_of(prev).push(fv) =~= old(self).writes() + views_of(
                    all.take(done + 1),
                ));
                assert(layer@ =~= all.skip(done + 1));
            }
        }
        proof {
            assert(all.take(all.len() as int) =~= all);
            lemma_apply_writes_concat(Map::empty(), old(self).writes(), views_of(all));
        }
    }

    /// Look one path up in the filesystem this root's writes produce.
    pub fn lookup(&self, path: &str) -> (r: Option<&FileImage>)
        ensures
            match r {
                Some(f) => self@.contains_key(path@) && self@[path@] == f@,
                None => !self@.contains_key(path@),
            },
    {
        let n = self.files.len();
        let mut i: usize = n;
        while i > 0
            invariant
                i <= n,
                n == self.files@.len(),
                forall|j: int| i <= j < n ==> self.writes()[j].path != path@,
            decreases i,
    {
            i = i - 1;
            if str_eq(self.files[i].path.as_str(), path) {
                proof {
                    lemma_last_write_wins(Map::empty(), self.writes(), i as int);
                }
                return Some(&self.files[i]);
            }
        }
        proof {
            lemma_untouched_path(Map::empty(), self.writes(), path@);
        }
        None
    }
}

/// What inflating a gzip stream yields: the decompressed bytes, or
/// nothing when the framing is bad. A pure function of the bytes.
pub uninterp spec fn gunzip_of(bytes: Seq<u8>) -> Option<Seq<u8>>;

/// What decoding a tar archive yields: its entries in archive order,
/// or nothing when the archive is malformed. A pure function of the
/// bytes.
pub uninterp spec fn tar_entries_of(bytes: Seq<u8>) -> Option<Seq<FileImageV>>;

/// Relies on flate2's `GzDecoder`: inflating a gzip stream in memory
/// depends on the bytes alone; a bad stream yields nothing.
#[verifier::external_body]
fn gunzip(bytes: &[u8]) -> (r: Option<Vec<u8>>)
    ensures
        r matches Some(v) ==> gunzip_of(bytes@) == Some(v@),
        r is None ==> gunzip_of(bytes@) is None,
{
    let mut out: Vec<u8> = Vec::new();
    let mut dec = flate2::bufread::GzDecoder::new(bytes);
    dec.read_to_end(&mut out).ok()?;
    Some(out)
}

/// Relies on tar's `Archive`: decoding an in-memory archive into its
/// entries (path, type, mode, link target, contents, in order)
/// depends on the bytes alone; a malformed archive yields nothing.
#[verifier::external_body]
fn tar_list(bytes: &[u8]) -> (r: Option<Vec<FileImage>>)
    ensures
        r matches Some(v) ==> tar_entries_of(bytes@) == Some(views_of(v@)),
        r is None ==> tar_entries_of(bytes@) is None,
{
    let mut out = Vec::new();
    let mut ar = tar::Archive::new(bytes);
    for ent in ar.entries().ok()? {
        let mut e = ent.ok()?;
        let path = e.path().ok()?.to_str()?.to_string();
        let kind = e.header().entry_type().as_byte();
        let mode = e.header().mode().ok()?;
        let link = match e.link_name().ok()? { Some(p) => p.to_str()?.to_string(), None => String::new() };
        let mut data = Vec::new();
        e.read_to_end(&mut data).ok()?;
        out.push(FileImage { path, kind, mode, link, data });
    }
    Some(out)
}

/// Treat `blob` as one gzip-compressed tar layer and merge its entries
/// into `fs`, in archive order. On any decoding error `fs` is left as
/// it was.
pub fn extract_layer(blob: &[u8], fs: &mut RootFs) -> (r: Result<(), RunError>)
    ensures
        match gunzip_of(blob@) {
            Option::None => r == Err::<(), RunError>(RunError::BadGzip) && *final(fs) == *old(
                fs,
            ),
            Option::Some(t) => match tar_entries_of(t) {
                Option::None => r == Err::<(), RunError>(RunError::BadArchive) && *final(fs)
                    == *old(fs),
                Option::Some(es) => {
                    &&& r == Ok::<(), RunError>(())
                    &&& final(fs).writes() == old(fs).writes() + es
                    &&& final(fs)@ == apply_writes(old(fs)@, es)
                },
            },
        },
{
    let inflated = match gunzip(blob) {
        Some(t) => t,
        None => {
            return Err(RunError::BadGzip);
        },
    };
    let layer = match tar_list(inflated.as_slice()) {
        Some(l) => l,
        None => {
            return Err(RunError::BadArchive);
        },
    };
    fs.apply_layer(layer);
    Ok(())
}

} // verus!

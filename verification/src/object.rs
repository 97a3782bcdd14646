//! The digest/compress accumulator and the object-store write pipeline.
//!
//! An [`Object`] emits its canonical serialization into an [`Accumulator`],
//! which feeds every chunk simultaneously into a SHA-1 hasher and a streaming
//! zlib compressor. Finishing the accumulator yields the 40-hex-character
//! content address and the compressed artifact; [`Object::put`] derives from
//! them the directory-splayed store path and returns a [`WritePlan`] the
//! caller writes to disk.

use vstd::prelude::*;
use vstd::string::*;
use std::io::Write;
use crate::StoreError;

verus! {

#[verifier::external_type_specification]
#[verifier::external_body]
pub struct ExSha1(sha1::Sha1);

#[verifier::external_type_specification]
#[verifier::external_body]
#[verifier::reject_recursive_types(W)]
#[verifier::reject_recursive_types(E)]
pub struct ExZlibEncoder<W, E>(libflate::zlib::Encoder<W, E>);

#[verifier::external_type_specification]
#[verifier::external_body]
pub struct ExDefaultLz77Encoder(libflate::lz77::DefaultLz77Encoder);

/// The SHA-1 digest of `data`, as 40 lowercase hexadecimal characters.
/// The digest depends on the byte sequence alone, however it was chunked.
pub uninterp spec fn sha1_hex(data: Seq<u8>) -> Seq<char>;

/// A lowercase hexadecimal digit. An address made of these holds no path
/// separator, so splaying it into directory and file names is safe.
pub open spec fn is_lower_hex(c: char) -> bool {
    ('0' <= c && c <= '9') || ('a' <= c && c <= 'f')
}

/// The zlib stream this crate's encoder produces, under its fixed default
/// options, when handed exactly `chunks` in that order, one write call
/// each. The result is a function of the chunk sequence, not of its
/// concatenation alone: the encoder buffers input and closes a compression
/// pass when a write fills an internal threshold, so where pass boundaries
/// fall — and with them the emitted bytes — can differ between two
/// chunkings of the same concatenated stream.
pub uninterp spec fn zlib_deflate(chunks: Seq<Seq<u8>>) -> Seq<u8>;

/// The decimal ASCII representation of `n`, without sign or padding
/// (for instance `12` becomes the two bytes `"12"`).
pub open spec fn dec_rep(n: nat) -> Seq<u8>
    decreases n,
{
    if n < 10 {
        seq![(n + 48) as u8]
    } else {
        dec_rep(n / 10).push((n % 10 + 48) as u8)
    }
}

/// Appends the decimal ASCII representation of `n` to `out`.
pub fn push_decimal(n: usize, out: &mut Vec<u8>)
    ensures
        final(out)@ == old(out)@ + dec_rep(n as nat),
    decreases n,
{
    if n < 10 {
        out.push((n as u8) + 48);
        proof {
            assert(out@ =~= old(out)@ + dec_rep(n as nat));
        }
    } else {
        push_decimal(n / 10, out);
        out.push(((n % 10) as u8) + 48);
        proof {
            assert(out@ =~= old(out)@ + dec_rep(n as nat));
        }
    }
}

/// The canonical tagged encoding: the type tag, a space, the decimal byte
/// length of the payload, a NUL byte, and the payload itself.
pub open spec fn canonical_serial(tag: Seq<u8>, payload: Seq<u8>) -> Seq<u8> {
    tag + seq![32u8] + dec_rep(payload.len()) + seq![0u8] + payload
}

/// Relies on sha1::Sha1::new for a freshly initialized hasher state; no
/// property of the raw state is claimed here. [`Hasher::new`] pairs the
/// fresh state with the empty sequence of absorbed bytes.
#[verifier::external_body]
fn sha1_new() -> sha1::Sha1 {
    sha1::Sha1::new()
}

/// Streaming SHA-1 hasher; `processed` tracks the bytes absorbed so far.
pub(crate) struct Hasher {
    inner: sha1::Sha1,
    processed: Ghost<Seq<u8>>,
}

impl Hasher {
    /// The bytes absorbed so far, in order.
    pub(crate) closed spec fn processed(&self) -> Seq<u8> {
        self.processed@
    }

    /// A hasher that has absorbed no bytes.
    pub(crate) fn new() -> (r: Hasher)
        ensures
            r.processed() == Seq::<u8>::empty(),
    {
        Hasher { inner: sha1_new(), processed: Ghost(Seq::empty()) }
    }

    /// Relies on sha1::Sha1::update: absorbs `data` after what came before.
    #[verifier::external_body]
    pub(crate) fn update(&mut self, data: &[u8])
        ensures
            final(self).processed() == old(self).processed() + data@,
    {
        self.inner.update(data);
    }

    /// Relies on sha1::Sha1::digest and the Display impl of sha1::Digest:
    /// the digest of exactly the absorbed bytes, printed as 40 lowercase
    /// hexadecimal (hence ASCII) characters, a function of those bytes alone.
    #[verifier::external_body]
    pub(crate) fn hex_digest(&self) -> (r: String)
        ensures
            r@ == sha1_hex(self.processed()),
            r@.len() == 40,
            r.is_ascii(),
            forall|i: int| 0 <= i < r@.len() ==> #[trigger] is_lower_hex(r@[i]),
    {
        self.inner.digest().to_string()
    }
}

/// Relies on libflate::zlib::Encoder::new for a freshly opened zlib stream
/// over an empty in-memory buffer. Its only failure path is writing the
/// stream header to the sink, and a Vec's Write impl is infallible, so
/// the call returns Ok. No property of the raw encoder is claimed here;
/// [`Compressor::new`] pairs the fresh stream with the empty sequence of
/// written chunks.
#[verifier::external_body]
fn zlib_encoder_new() -> (r: Result<libflate::zlib::Encoder<Vec<u8>>, StoreError>)
    ensures
        r is Ok,
{
    match libflate::zlib::Encoder::new(Vec::new()) {
        Ok(inner) => Ok(inner),
        Err(_) => Err(StoreError::Io),
    }
}

/// Streaming zlib compressor over an in-memory buffer; `chunks` tracks the
/// chunks accepted so far, one per write call, in order.
pub(crate) struct Compressor {
    inner: libflate::zlib::Encoder<Vec<u8>>,
    chunks: Ghost<Seq<Seq<u8>>>,
}

impl Compressor {
    /// The chunks fed to the compressed stream so far, in order.
    pub(crate) closed spec fn chunks(&self) -> Seq<Seq<u8>> {
        self.chunks@
    }

    /// A fresh zlib stream over an empty in-memory buffer, with no chunks
    /// fed yet.
    pub(crate) fn new() -> (r: Result<Compressor, StoreError>)
        ensures
            r is Ok,
            r matches Ok(c) ==> c.chunks() == Seq::<Seq<u8>>::empty(),
    {
        match zlib_encoder_new() {
            Ok(inner) => Ok(Compressor { inner, chunks: Ghost(Seq::empty()) }),
            Err(e) => Err(e),
        }
    }

    /// Relies on std::io::Write::write_all through libflate::zlib::Encoder:
    /// every byte of `data` enters the stream as the next chunk. Into a
    /// Vec sink the encoder's error paths are dead — a Vec's Write impl
    /// is infallible — so the call returns Ok.
    #[verifier::external_body]
    pub(crate) fn write(&mut self, data: &[u8]) -> (r: Result<(), StoreError>)
        ensures
            r is Ok,
            final(self).chunks() == old(self).chunks().push(data@),
    {
        match self.inner.write_all(data) {
            Ok(()) => Ok(()),
            Err(_) => Err(StoreError::Io),
        }
    }

    /// Relies on libflate::zlib::Encoder::finish: completes the stream and
    /// hands back the buffer — the zlib encoding the fixed default encoder
    /// produces for exactly this sequence of written chunks, a function of
    /// that sequence alone. Finishing only writes the final block and the
    /// Adler-32 trailer to the infallible Vec sink, so the call returns Ok.
    #[verifier::external_body]
    pub(crate) fn finish(self) -> (r: Result<Vec<u8>, StoreError>)
        ensures
            r is Ok,
            r matches Ok(v) ==> v@ == zlib_deflate(self.chunks()),
    {
        match self.inner.finish().into_result() {
            Ok(v) => Ok(v),
            Err(_) => Err(StoreError::Io),
        }
    }
}

/// Feeds each ingested chunk simultaneously into a SHA-1 hasher and a
/// streaming zlib compressor; owns no copy of the original content.
pub struct Accumulator {
    digester: Hasher,
    encoder: Compressor,
}

impl View for Accumulator {
    type V = Seq<u8>;

    /// The bytes ingested so far, in order.
    closed spec fn view(&self) -> Seq<u8> {
        self.digester.processed()
    }
}

impl Accumulator {
    /// The chunks ingested so far, one per ingestion call, in order.
    pub closed spec fn chunks(&self) -> Seq<Seq<u8>> {
        self.encoder.chunks()
    }

    /// The hasher and the compressor have consumed the same byte stream:
    /// the absorbed bytes are the written chunks placed end-to-end.
    pub closed spec fn wf(&self) -> bool {
        self.digester.processed() == self.encoder.chunks().flatten()
    }

    /// A fresh accumulator that has ingested nothing.
    pub fn new() -> (r: Result<Accumulator, StoreError>)
        ensures
            r is Ok,
            r matches Ok(acc) ==> {
                &&& acc.wf()
                &&& acc@ == Seq::<u8>::empty()
                &&& acc.chunks() == Seq::<Seq<u8>>::empty()
            },
    {
        let digester = Hasher::new();
        match Compressor::new() {
            Ok(encoder) => {
                proof {
                    assert(Seq::<Seq<u8>>::empty().flatten() =~= Seq::<u8>::empty());
                }
                Ok(Accumulator { digester, encoder })
            },
            Err(e) => Err(e),
        }
    }

    /// Process the next in an ordered sequence of byte slices which
    /// represent the serialized object. The chunk updates the running hash
    /// and goes through the compressor; side effects are strictly additive.
    /// Over the in-memory buffer the ingestion cannot fail.
    pub fn ingest(&mut self, slice: &[u8]) -> (r: Result<(), StoreError>)
        requires
            old(self).wf(),
        ensures
            r is Ok,
            final(self).wf(),
            final(self)@ == old(self)@ + slice@,
            final(self).chunks() == old(self).chunks().push(slice@),
    {
        self.digester.update(slice);
        let r = self.encoder.write(slice);
        proof {
            old(self).encoder.chunks().lemma_flatten_push(slice@);
        }
        r
    }

    /// Finalize the accumulation: the 40-hex-character content address of
    /// the ingested byte stream, and the compressed form of the ingested
    /// chunk sequence.
    pub fn finish(self) -> (r: Result<(String, Vec<u8>), StoreError>)
        requires
            self.wf(),
        ensures
            r is Ok,
            r matches Ok(p) ==> {
                &&& p.0@ == sha1_hex(self@)
                &&& p.0@.len() == 40
                &&& p.0.is_ascii()
                &&& (forall|i: int| 0 <= i < p.0@.len() ==> #[trigger] is_lower_hex(p.0@[i]))
                &&& p.1@ == zlib_deflate(self.chunks())
            },
    {
        let hex = self.digester.hex_digest();
        match self.encoder.finish() {
            Ok(data) => Ok((hex, data)),
            Err(e) => Err(e),
        }
    }
}

/// Everything the durable write of one stored artifact needs: the content
/// address, the shard directory to create (tolerating that it already
/// exists), the final file path, and the compressed bytes to place there.
pub struct WritePlan {
    /// The 40-hex-character content address.
    pub address: String,
    /// `<objects_dir>/<first 2 hex chars>`: the directory to ensure exists.
    pub shard_dir: String,
    /// `<shard_dir>/<remaining 38 hex chars>`: where the artifact belongs.
    pub file_path: String,
    /// The zlib-compressed canonical serialization.
    pub data: Vec<u8>,
}

/// The plan a store of an object must come out to, for an object whose
/// canonical serialization is `serial`, emitted as the chunk sequence
/// `chunks`, under `objects_dir`: the address and the directory-splayed
/// paths are pinned down by `serial` alone, the compressed bytes by the
/// chunk sequence.
pub open spec fn plan_matches(
    plan: WritePlan,
    serial: Seq<u8>,
    chunks: Seq<Seq<u8>>,
    objects_dir: Seq<char>,
) -> bool {
    &&& plan.address@ == sha1_hex(serial)
    &&& plan.address@.len() == 40
    &&& (forall|i: int| 0 <= i < plan.address@.len() ==> #[trigger] is_lower_hex(plan.address@[i]))
    &&& plan.shard_dir@ == objects_dir + "/"@ + sha1_hex(serial).subrange(0, 2)
    &&& plan.file_path@ == plan.shard_dir@ + "/"@ + sha1_hex(serial).subrange(2, 40)
    &&& plan.data@ == zlib_deflate(chunks)
}

/// Derive the write plan for a finalized accumulation: split the
/// 40-hex-character address into the 2-character shard directory name and
/// the 38-character file name, both under `objects_dir`, and carry the
/// compressed bytes along unchanged.
pub fn splay_plan(address: String, data: Vec<u8>, objects_dir: &str) -> (r: WritePlan)
    requires
        address@.len() == 40,
        address.is_ascii(),
    ensures
        r.address@ == address@,
        r.shard_dir@ == objects_dir@ + "/"@ + address@.subrange(0, 2),
        r.file_path@ == r.shard_dir@ + "/"@ + address@.subrange(2, 40),
        r.data@ == data@,
{
    let dir_part = address.as_str().substring_ascii(0, 2);
    let file_part = address.as_str().substring_ascii(2, 40);
    let mut shard_dir = String::from_str(objects_dir);
    shard_dir.append("/");
    shard_dir.append(dir_part);
    let mut file_path = shard_dir.clone();
    file_path.append("/");
    file_path.append(file_part);
    WritePlan { address, shard_dir, file_path, data }
}

/// Anything that can serialize itself into the accumulator's ingestion
/// calls in the canonical tagged encoding. This is the only extension
/// point for adding new object kinds; the store writer never inspects
/// object internals.
pub trait Object {
    /// The canonical serialization this object emits.
    spec fn serial(&self) -> Seq<u8>;

    /// The exact byte chunks, in order, that `accumulate` hands to the
    /// sink's ingestion calls; placed end-to-end they form `serial`.
    spec fn emit_chunks(&self) -> Seq<Seq<u8>>;

    /// Which errors this object's own serialization can surface: every
    /// failure of `accumulate` — and so of `put`, which has no other
    /// failure source — satisfies this predicate. An object whose
    /// serialization cannot fail (a blob) makes it constantly false, and
    /// its store is then proved total.
    spec fn emit_error(&self, e: StoreError) -> bool;

    /// Collect a sequence of byte slices into the supplied `sink` which
    /// when placed end-to-end represent the serialized form of the object.
    /// A successful run leaves the object's serialization and chunking
    /// unchanged; a failure is one of the object's own serialization
    /// errors.
    fn accumulate(&mut self, sink: &mut Accumulator) -> (r: Result<(), StoreError>)
        requires
            old(sink).wf(),
        ensures
            r matches Ok(()) ==> {
                &&& final(sink).wf()
                &&& final(sink)@ == old(sink)@ + old(self).serial()
                &&& final(sink).chunks() == old(sink).chunks() + old(self).emit_chunks()
                &&& final(self).serial() == old(self).serial()
                &&& final(self).emit_chunks() == old(self).emit_chunks()
            },
            r matches Err(e) ==> old(self).emit_error(e),
    ;

    /// Put the object into the content-addressable store rooted at
    /// `objects_dir`: accumulate the canonical serialization, derive the
    /// content address from the digest, splay it into the shard directory
    /// and file name, and return the resulting write plan. The accumulator
    /// itself cannot fail, so the only failure is the object's own
    /// serialization error, propagated unchanged — and nothing has touched
    /// disk, since this crate performs no I/O; the caller performs the
    /// plan's writes.
    fn put(&mut self, objects_dir: &str) -> (r: Result<WritePlan, StoreError>)
        ensures
            r matches Ok(plan) ==> {
                &&& plan_matches(
                    plan,
                    old(self).serial(),
                    old(self).emit_chunks(),
                    objects_dir@,
                )
                &&& final(self).serial() == old(self).serial()
                &&& final(self).emit_chunks() == old(self).emit_chunks()
            },
            r matches Err(e) ==> old(self).emit_error(e),
    {
        let mut sink = match Accumulator::new() {
            Ok(sink) => sink,
            Err(e) => {
                return Err(e);
            },
        };
        match self.accumulate(&mut sink) {
            Ok(()) => {},
            Err(e) => {
                return Err(e);
            },
        }
        proof {
            assert(sink@ =~= old(self).serial());
            assert(sink.chunks() =~= old(self).emit_chunks());
        }
        let (digest, data) = match sink.finish() {
            Ok(p) => p,
            Err(e) => {
                return Err(e);
            },
        };
        Ok(splay_plan(digest, data, objects_dir))
    }
}

/// Determinism and idempotence of the store: storing one object twice — or
/// any two objects that emit the identical canonical serialization in
/// identical chunks — comes out to the same content address and the same
/// directory-splayed path, with byte-identical compressed artifacts, so
/// the second store rewrites exactly the bytes already there and cannot
/// corrupt them.
pub proof fn lemma_store_deterministic<O: Object>(
    plan1: WritePlan,
    plan2: WritePlan,
    obj: &O,
    objects_dir: Seq<char>,
)
    requires
        plan_matches(plan1, obj.serial(), obj.emit_chunks(), objects_dir),
        plan_matches(plan2, obj.serial(), obj.emit_chunks(), objects_dir),
    ensures
        plan1.address@ == plan2.address@,
        plan1.shard_dir@ == plan2.shard_dir@,
        plan1.file_path@ == plan2.file_path@,
        plan1.data@ == plan2.data@,
{
}

} // verus!

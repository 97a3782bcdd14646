//! The blob object kind: raw content under the `"blob"` tag.

use vstd::prelude::*;
use crate::StoreError;
use crate::object::{canonical_serial, dec_rep, push_decimal, Accumulator, Object};

verus! {

/// The type tag of a blob object: the four bytes of `"blob"`.
pub open spec fn blob_tag() -> Seq<u8> {
    seq![98u8, 108u8, 111u8, 98u8]
}

/// The header chunk of a blob: `"blob <decimal-length>\0"`.
pub open spec fn blob_header(payload: Seq<u8>) -> Seq<u8> {
    blob_tag() + seq![32u8] + dec_rep(payload.len()) + seq![0u8]
}

/// The chunks a blob hands to the accumulator's ingestion calls: the
/// header, then the payload itself.
pub open spec fn blob_chunks(payload: Seq<u8>) -> Seq<Seq<u8>> {
    seq![blob_header(payload), payload]
}

/// A blob object wrapping caller-owned content, borrowed and never copied.
/// It emits the canonical encoding `"blob <decimal-length>\0<content>"`,
/// where the length is the exact byte length of the content.
pub struct Blob<'a> {
    content: &'a [u8],
}

impl<'a> View for Blob<'a> {
    type V = Seq<u8>;

    /// The raw content this blob wraps.
    closed spec fn view(&self) -> Seq<u8> {
        self.content@
    }
}

impl<'a> Blob<'a> {
    /// A blob over the given content.
    pub fn new(content: &'a [u8]) -> (r: Blob<'a>)
        ensures
            r@ == content@,
    {
        Blob { content }
    }
}

impl<'a> Object for Blob<'a> {
    open spec fn serial(&self) -> Seq<u8> {
        canonical_serial(blob_tag(), self@)
    }

    open spec fn emit_chunks(&self) -> Seq<Seq<u8>> {
        blob_chunks(self@)
    }

    /// A blob's serialization only feeds the infallible accumulator, so it
    /// surfaces no error at all: storing a blob is total.
    open spec fn emit_error(&self, e: StoreError) -> bool {
        false
    }

    fn accumulate(&mut self, sink: &mut Accumulator) -> (r: Result<(), StoreError>) {
        let mut header: Vec<u8> = Vec::new();
        header.push(98);
        header.push(108);
        header.push(111);
        header.push(98);
        header.push(32);
        push_decimal(self.content.len(), &mut header);
        header.push(0);
        proof {
            assert(header@ =~= blob_header(self.content@));
        }
        match sink.ingest(header.as_slice()) {
            Ok(()) => {},
            Err(e) => {
                return Err(e);
            },
        }
        match sink.ingest(self.content) {
            Ok(()) => {},
            Err(e) => {
                return Err(e);
            },
        }
        proof {
            assert(sink@ =~= old(sink)@ + canonical_serial(blob_tag(), old(self)@));
            assert(sink.chunks() =~= old(sink).chunks() + blob_chunks(old(self)@));
        }
        Ok(())
    }
}

} // verus!

//! Collecting a download piece by piece.

use crate::app_state::Progress;
use vstd::prelude::*;

verus! {

/// A download under way: what has arrived, and how much was announced, where
/// zero stands for an unknown size.
#[derive(Debug)]
pub struct Download {
    total: u64,
    bytes: Vec<u8>,
}

#[verifier::ext_equal]
pub struct DownloadView {
    pub total: u64,
    pub bytes: Seq<u8>,
}

/// What a piece means for the download.
#[derive(Clone, Copy, Debug, PartialEq, Eq, Structural)]
pub enum Received {
    /// More may come. Where the size is known, this share has arrived.
    Partial(Option<Progress>),
    /// The piece was empty: nothing more comes.
    Complete,
}

impl DownloadView {
    /// The download at its start.
    pub open spec fn begun(content_length: Option<u64>) -> DownloadView {
        DownloadView {
            total: match content_length {
                Some(total) => total,
                None => 0,
            },
            bytes: seq![],
        }
    }

    /// The download with one more piece.
    pub open spec fn with_piece(self, piece: Seq<u8>) -> DownloadView {
        DownloadView { total: self.total, bytes: self.bytes + piece }
    }

    /// The share that has arrived, where the size is known.
    pub open spec fn share(self) -> Option<Progress> {
        if self.total > 0 {
            Some(Progress::Determinate { done: self.bytes.len() as u64, total: self.total })
        } else {
            None
        }
    }

    /// What one more piece means for the download.
    pub open spec fn received(self, piece: Seq<u8>) -> Received {
        if piece.len() == 0 {
            Received::Complete
        } else {
            Received::Partial(self.with_piece(piece).share())
        }
    }
}

impl View for Download {
    type V = DownloadView;

    closed spec fn view(&self) -> DownloadView {
        DownloadView { total: self.total, bytes: self.bytes@ }
    }
}

impl Download {
    /// Begins a download of the announced size, if one was announced.
    pub fn new(content_length: Option<u64>) -> (r: Download)
        ensures
            r@ == DownloadView::begun(content_length),
    {
        let download = Download { total: content_length.unwrap_or(0), bytes: Vec::new() };
        assert(download@.bytes =~= seq![]);
        download
    }

    /// Takes the next piece. An empty one ends the download; with any other, the
    /// share that has arrived is told, where the size is known. No more can
    /// arrive than can be counted.
    pub fn receive(&mut self, piece: &[u8]) -> (r: Received)
        ensures
            final(self)@ == old(self)@.with_piece(piece@),
            final(self)@.bytes.len() <= u64::MAX,
            r == (if piece@.len() == 0 {
                Received::Complete
            } else {
                Received::Partial(final(self)@.share())
            }),
            r == old(self)@.received(piece@),
    {
        self.bytes.extend_from_slice(piece);
        assert(self.bytes@ =~= old(self).bytes@ + piece@);
        let done: usize = self.bytes.len();
        if piece.len() == 0 {
            Received::Complete
        } else if self.total > 0 {
            Received::Partial(
                Some(Progress::Determinate { done: done as u64, total: self.total }),
            )
        } else {
            Received::Partial(None)
        }
    }

    /// Ends the download with all that has arrived.
    pub fn finish(self) -> (r: Vec<u8>)
        ensures
            r@ == self@.bytes,
    {
        self.bytes
    }
}

} // verus!

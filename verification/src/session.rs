//! The encoder session: what was launched, what has gone down the pipe,
//! and how the launch, the writes and the exit turn into results.
//!
//! The session owns no process. Its caller launches the encoder with
//! [`arguments`](crate::command::arguments), reports how that went to
//! [`start`], writes what [`FFMpeg::send_frame`] returns to the encoder's
//! standard input, reports how the write went to
//! [`FFMpeg::frame_written`], and reports the encoder's exit to
//! [`FFMpeg::finalize`].

use vstd::prelude::*;
use crate::color::Color;
use crate::error::{Error, ExitStatus};
use crate::frame::{frame_bytes, lemma_frame_bytes_concat, serialize_frame};

verus! {

/// A session as its contracts see it.
pub struct Session {
    /// Where the encoder writes the video.
    pub out_file: Seq<char>,
    /// Pixels in a row.
    pub width: nat,
    /// Rows in a frame.
    pub height: nat,
    /// Frames per second.
    pub fps: nat,
    /// Every byte handed out for the pipe so far, in order.
    pub stream: Seq<u8>,
}

impl Session {
    /// A session that has sent nothing yet.
    pub open spec fn fresh(out_file: Seq<char>, width: nat, height: nat, fps: nat) -> Session {
        Session { out_file, width, height, fps, stream: Seq::empty() }
    }

    /// Whether `pixels` is one whole frame of this session.
    pub open spec fn accepts(self, pixels: Seq<Color>) -> bool {
        pixels.len() == self.width * self.height
    }

    /// The session after one more frame: the frame's bytes follow what was
    /// sent before, and nothing else changes.
    pub open spec fn after_frame(self, pixels: Seq<Color>) -> Session {
        Session { stream: self.stream + frame_bytes(pixels), ..self }
    }

    /// The session after a run of frames, sent in order.
    pub open spec fn after_frames(self, frames: Seq<Seq<Color>>) -> Session
        decreases frames.len(),
    {
        if frames.len() == 0 {
            self
        } else {
            self.after_frames(frames.drop_last()).after_frame(frames.last())
        }
    }
}

/// The pixels of a run of frames, first frame first.
pub open spec fn all_pixels(frames: Seq<Seq<Color>>) -> Seq<Color>
    decreases frames.len(),
{
    if frames.len() == 0 {
        Seq::empty()
    } else {
        all_pixels(frames.drop_last()) + frames.last()
    }
}

/// Frames sent one after another reach the pipe as the bytes of their
/// pixels in that very order, after what was sent before: nothing is
/// dropped, reordered or put between them. The configuration stays as it
/// was.
pub proof fn lemma_frames_in_order(session: Session, frames: Seq<Seq<Color>>)
    ensures
        session.after_frames(frames) == (Session {
            stream: session.stream + frame_bytes(all_pixels(frames)),
            ..session
        }),
    decreases frames.len(),
{
    if frames.len() > 0 {
        lemma_frames_in_order(session, frames.drop_last());
        lemma_frame_bytes_concat(all_pixels(frames.drop_last()), frames.last());
        assert(session.stream + frame_bytes(all_pixels(frames.drop_last())) + frame_bytes(
            frames.last(),
        ) =~= session.stream + frame_bytes(all_pixels(frames)));
    }
}

/// Three frames sent in turn put exactly the bytes of the first, then of
/// the second, then of the third on the pipe.
pub proof fn lemma_three_frames(
    session: Session,
    first: Seq<Color>,
    second: Seq<Color>,
    third: Seq<Color>,
)
    ensures
        session.after_frame(first).after_frame(second).after_frame(third).stream == session.stream
            + frame_bytes(first) + frame_bytes(second) + frame_bytes(third),
{
}

/// An encoder session: the configuration that the encoder was launched
/// with, fixed for the session's life. It is made by [`start`], fed by
/// [`FFMpeg::send_frame`] and used up by [`FFMpeg::finalize`].
pub struct FFMpeg {
    out_file: String,
    width: usize,
    height: usize,
    fps: u32,
    stream: Ghost<Seq<u8>>,
}

impl View for FFMpeg {
    type V = Session;

    closed spec fn view(&self) -> Session {
        Session {
            out_file: self.out_file@,
            width: self.width as nat,
            height: self.height as nat,
            fps: self.fps as nat,
            stream: self.stream@,
        }
    }
}

/// Opens a session. Same as [`FFMpeg::start`].
pub fn start(
    out_file: &str,
    width: usize,
    height: usize,
    fps: u32,
    spawned: Result<(), std::io::Error>,
) -> (result: crate::error::Result<FFMpeg>)
    ensures
        match spawned {
            Ok(_) => result matches Ok(session) && session@ == Session::fresh(
                out_file@,
                width as nat,
                height as nat,
                fps as nat,
            ),
            Err(e) => result matches Err(error) && error == Error::IOError(e),
        },
{
    FFMpeg::start(out_file, width, height, fps, spawned)
}

impl FFMpeg {
    /// Opens a session on an encoder that the caller tried to launch for
    /// `out_file`, `width`, `height` and `fps`, where `spawned` is how the
    /// launch went. A failed launch gives the operating system's error and
    /// no session; a launch that went well gives a session that has sent
    /// nothing yet.
    ///
    /// No size or rate is refused here, zero included: the encoder is the
    /// judge of those, and says so by how it exits.
    pub fn start(
        out_file: &str,
        width: usize,
        height: usize,
        fps: u32,
        spawned: Result<(), std::io::Error>,
    ) -> (result: crate::error::Result<FFMpeg>)
        ensures
            match spawned {
                Ok(_) => result matches Ok(session) && session@ == Session::fresh(
                    out_file@,
                    width as nat,
                    height as nat,
                    fps as nat,
                ),
                Err(e) => result matches Err(error) && error == Error::IOError(e),
            },
    {
        match spawned {
            Ok(_) => Ok(
                FFMpeg {
                    out_file: out_file.to_owned(),
                    width,
                    height,
                    fps,
                    stream: Ghost(Seq::empty()),
                },
            ),
            Err(e) => Err(Error::from(e)),
        }
    }

    /// The path that the encoder writes the video to.
    pub fn out_file(&self) -> (path: &str)
        ensures
            path@ == self@.out_file,
    {
        self.out_file.as_str()
    }

    /// The number of pixels in a row.
    pub fn width(&self) -> (width: usize)
        ensures
            width == self@.width,
    {
        self.width
    }

    /// The number of rows in a frame.
    pub fn height(&self) -> (height: usize)
        ensures
            height == self@.height,
    {
        self.height
    }

    /// The number of frames per second.
    pub fn fps(&self) -> (fps: u32)
        ensures
            fps == self@.fps,
    {
        self.fps
    }

    /// The width and the height of a frame.
    pub fn resolution(&self) -> (size: (usize, usize))
        ensures
            size.0 == self@.width,
            size.1 == self@.height,
    {
        (self.width, self.height)
    }

    /// Whether `pixels` is one whole frame: as many pixels as the width
    /// times the height, also where that product is beyond `usize`.
    pub fn accepts(&self, pixels: &[Color]) -> (ok: bool)
        ensures
            ok == self@.accepts(pixels@),
    {
        let len = pixels.len();
        match self.width.checked_mul(self.height) {
            Some(count) => len == count,
            None => false,
        }
    }

    /// Takes the next frame and returns the bytes to write to the pipe for
    /// it, whole and before anything else: row after row, pixel after
    /// pixel, four bytes each.
    pub fn send_frame(&mut self, pixels: &[Color]) -> (bytes: Vec<u8>)
        requires
            old(self)@.accepts(pixels@),
        ensures
            bytes@ == frame_bytes(pixels@),
            bytes@.len() == 4 * old(self)@.width * old(self)@.height,
            final(self)@ == old(self)@.after_frame(pixels@),
    {
        let bytes = serialize_frame(pixels);
        proof {
            self.stream = Ghost(self.stream@ + bytes@);
            assert(4 * pixels@.len() == 4 * self@.width * self@.height) by (nonlinear_arith)
                requires
                    pixels@.len() == self@.width * self@.height,
            ;
        }
        bytes
    }

    /// Says what became of a frame, given how writing its bytes to the pipe
    /// went: a write that failed gives the operating system's error, and
    /// the session is of no use after it.
    pub fn frame_written(&self, written: Result<(), std::io::Error>) -> (result:
        crate::error::Result<()>)
        ensures
            match written {
                Ok(_) => result is Ok,
                Err(e) => result matches Err(error) && error == Error::IOError(e),
            },
    {
        match written {
            Ok(_) => Ok(()),
            Err(e) => Err(Error::from(e)),
        }
    }

    /// Ends the session, given how waiting for the encoder went: success
    /// where it exited with code 0, the exit status where it ended in any
    /// other way, and the operating system's error where the wait itself
    /// failed.
    pub fn finalize(self, waited: Result<ExitStatus, std::io::Error>) -> (result:
        crate::error::Result<()>)
        ensures
            match waited {
                Ok(status) => if status.succeeded() {
                    result is Ok
                } else {
                    result matches Err(error) && error == Error::FFMpegExitedAbnormally(status)
                },
                Err(e) => result matches Err(error) && error == Error::IOError(e),
            },
    {
        match waited {
            Ok(status) => if status.success() {
                Ok(())
            } else {
                Err(Error::FFMpegExitedAbnormally(status))
            },
            Err(e) => Err(Error::from(e)),
        }
    }
}

} // verus!

//! The capture source: which displays exist, whether a capture run is active,
//! and the sequence numbers of the frames of one run.

use vstd::prelude::*;

verus! {

/// Why a request to the capture source was refused.
#[derive(Debug, Clone, Copy, PartialEq, Eq, Structural)]
pub enum CaptureFault {
    /// A frame was asked for while no capture run is active.
    NotCapturing,
    /// The display that was asked for is not among the available ones.
    UnknownDisplay,
    /// The run has handed out every sequence number a frame can carry.
    SequenceExhausted,
}

/// A fault of the capture source.
#[derive(Debug, Clone, Copy, PartialEq, Eq, Structural)]
pub struct ScreenCaptureError {
    pub kind: CaptureFault,
}

/// The text that goes with each fault.
pub open spec fn capture_fault_text(kind: CaptureFault) -> Seq<char> {
    match kind {
        CaptureFault::NotCapturing => "Screen capture is not active"@,
        CaptureFault::UnknownDisplay => "Display is not available"@,
        CaptureFault::SequenceExhausted => "Frame sequence numbers are exhausted"@,
    }
}

impl ScreenCaptureError {
    /// The fault in words, without the type's name in front.
    pub fn message(&self) -> (text: String)
        ensures
            text@ == capture_fault_text(self.kind),
    {
        match self.kind {
            CaptureFault::NotCapturing => "Screen capture is not active".to_owned(),
            CaptureFault::UnknownDisplay => "Display is not available".to_owned(),
            CaptureFault::SequenceExhausted => "Frame sequence numbers are exhausted".to_owned(),
        }
    }

    /// The fault as it is shown to a user: the type's name, a colon, the message.
    pub fn describe(&self) -> (text: String)
        ensures
            text@ == "ScreenCaptureError: "@ + capture_fault_text(self.kind),
    {
        let head = "ScreenCaptureError: ".to_owned();
        let tail = self.message();
        head.concat(tail.as_str())
    }
}

/// One display that can be captured.
#[derive(Debug, Clone)]
pub struct DisplayInfo {
    pub id: u32,
    pub name: String,
    pub width: u32,
    pub height: u32,
    pub is_primary: bool,
}

/// A raw frame as the capture source hands it on: pixels, the time of capture,
/// and the frame's place in its capture run.
#[derive(Debug, PartialEq, Eq)]
pub struct Frame {
    pub pixels: Vec<u8>,
    pub timestamp_ms: u64,
    pub sequence: u64,
}

/// The capture source of one agent.
///
/// `next_sequence` is the number that the next frame of the current run gets;
/// a run starts at zero.
pub struct ScreenCapture {
    pub is_capturing: bool,
    pub display_id: Option<u32>,
    pub displays: Vec<DisplayInfo>,
    pub next_sequence: u64,
}

/// Whether a display with this id is in the list.
pub open spec fn has_display(displays: Seq<DisplayInfo>, id: u32) -> bool {
    exists|i: int| 0 <= i < displays.len() && #[trigger] displays[i].id == id
}

impl ScreenCapture {
    /// Whether the source is idle, at the start of its numbering, and knows
    /// one display and no other: the primary one, of 1920 by 1080, under the
    /// id 0.
    pub open spec fn is_default(&self) -> bool {
        &&& !self.is_capturing
        &&& self.display_id is None
        &&& self.next_sequence == 0
        &&& self.displays@.len() == 1
        &&& self.displays@[0].id == 0
        &&& self.displays@[0].name@ == "Primary Display"@
        &&& self.displays@[0].width == 1920
        &&& self.displays@[0].height == 1080
        &&& self.displays@[0].is_primary
    }

    /// A capture source that knows one primary display of 1920 by 1080, idle.
    pub fn new() -> (made: Result<Self, ScreenCaptureError>)
        ensures
            made matches Ok(capture) && capture.is_default(),
    {
        let mut displays: Vec<DisplayInfo> = Vec::new();
        displays.push(
            DisplayInfo {
                id: 0,
                name: "Primary Display".to_owned(),
                width: 1920,
                height: 1080,
                is_primary: true,
            },
        );
        Ok(ScreenCapture { is_capturing: false, display_id: None, displays, next_sequence: 0 })
    }

    /// A capture source over the displays that the platform reported, idle.
    pub fn with_displays(displays: Vec<DisplayInfo>) -> (capture: Self)
        ensures
            !capture.is_capturing,
            capture.display_id is None,
            capture.next_sequence == 0,
            capture.displays == displays,
    {
        ScreenCapture { is_capturing: false, display_id: None, displays, next_sequence: 0 }
    }

    /// Whether a display with this id is known to the source.
    pub fn knows_display(&self, id: u32) -> (known: bool)
        ensures
            known == has_display(self.displays@, id),
    {
        let mut i: usize = 0;
        while i < self.displays.len()
            invariant
                i <= self.displays.len(),
                forall|j: int| 0 <= j < i ==> (#[trigger] self.displays@[j]).id != id,
            decreases self.displays.len() - i,
        {
            if self.displays[i].id == id {
                return true;
            }
            i += 1;
        }
        false
    }

    /// Starts a capture run on the given display, or on the default one.
    ///
    /// A display that is not in the list is refused and nothing changes.
    /// Otherwise a new run begins: its frames are numbered from zero again,
    /// also when a run was already active.
    pub fn start_capture(&mut self, display_id: Option<u32>) -> (started: Result<
        (),
        ScreenCaptureError,
    >)
        ensures
            started is Ok <==> (display_id matches Some(id) ==> has_display(
                old(self).displays@,
                id,
            )),
            started matches Err(e) ==> {
                &&& e.kind == CaptureFault::UnknownDisplay
                &&& *final(self) == *old(self)
            },
            started is Ok ==> {
                &&& final(self).is_capturing
                &&& final(self).display_id == display_id
                &&& final(self).next_sequence == 0
                &&& final(self).displays == old(self).displays
            },
    {
        match display_id {
            Some(id) => {
                if !self.knows_display(id) {
                    return Err(ScreenCaptureError { kind: CaptureFault::UnknownDisplay });
                }
            },
            None => {},
        }
        self.display_id = display_id;
        self.is_capturing = true;
        self.next_sequence = 0;
        Ok(())
    }

    /// Ends the capture run, if there is one. Never fails; a second call
    /// changes nothing.
    pub fn stop_capture(&mut self) -> (stopped: Result<(), ScreenCaptureError>)
        ensures
            stopped is Ok,
            !final(self).is_capturing,
            final(self).display_id is None,
            final(self).displays == old(self).displays,
            final(self).next_sequence == old(self).next_sequence,
    {
        self.is_capturing = false;
        self.display_id = None;
        Ok(())
    }

    /// The displays that can be captured, in the order they were reported.
    pub fn get_available_displays(&self) -> (listed: Result<Vec<DisplayInfo>, ScreenCaptureError>)
        ensures
            listed matches Ok(displays) && displays@ == self.displays@,
    {
        let mut copy: Vec<DisplayInfo> = Vec::new();
        let mut i: usize = 0;
        while i < self.displays.len()
            invariant
                i <= self.displays.len(),
                copy@ == self.displays@.subrange(0, i as int),
            decreases self.displays.len() - i,
        {
            let display = &self.displays[i];
            copy.push(
                DisplayInfo {
                    id: display.id,
                    name: display.name.clone(),
                    width: display.width,
                    height: display.height,
                    is_primary: display.is_primary,
                },
            );
            assert(copy@ == self.displays@.subrange(0, i + 1));
            i += 1;
        }
        assert(self.displays@.subrange(0, i as int) == self.displays@);
        Ok(copy)
    }

    /// The raw pixel buffer of the current screen contents.
    ///
    /// Fails while no capture run is active. The platform backend that fills
    /// the buffer is not part of this crate, so the buffer is empty.
    pub fn capture_frame(&self) -> (captured: Result<Vec<u8>, ScreenCaptureError>)
        ensures
            captured is Ok <==> self.is_capturing,
            captured matches Ok(pixels) ==> pixels@ == Seq::<u8>::empty(),
            captured matches Err(e) ==> e.kind == CaptureFault::NotCapturing,
    {
        if !self.is_capturing {
            return Err(ScreenCaptureError { kind: CaptureFault::NotCapturing });
        }
        Ok(Vec::new())
    }

    /// Makes a frame of the current run out of what the platform captured.
    ///
    /// The frame gets the run's next sequence number, so the frames of one
    /// run carry 0, 1, 2, .. in the order they were made.
    pub fn next_frame(&mut self, pixels: Vec<u8>, timestamp_ms: u64) -> (made: Result<
        Frame,
        ScreenCaptureError,
    >)
        ensures
            made is Ok <==> old(self).is_capturing && old(self).next_sequence < u64::MAX,
            made matches Ok(frame) ==> {
                &&& frame.pixels == pixels
                &&& frame.timestamp_ms == timestamp_ms
                &&& frame.sequence == old(self).next_sequence
                &&& final(self).next_sequence == old(self).next_sequence + 1
                &&& final(self).is_capturing
                &&& final(self).display_id == old(self).display_id
                &&& final(self).displays == old(self).displays
            },
            made matches Err(e) ==> {
                &&& *final(self) == *old(self)
                &&& e.kind == if old(self).is_capturing {
                    CaptureFault::SequenceExhausted
                } else {
                    CaptureFault::NotCapturing
                }
            },
    {
        if !self.is_capturing {
            return Err(ScreenCaptureError { kind: CaptureFault::NotCapturing });
        }
        if self.next_sequence == u64::MAX {
            return Err(ScreenCaptureError { kind: CaptureFault::SequenceExhausted });
        }
        let sequence: u64 = self.next_sequence;
        self.next_sequence = sequence + 1;
        Ok(Frame { pixels, timestamp_ms, sequence })
    }
}

} // verus!

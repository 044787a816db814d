use vstd::prelude::*;

verus! {

/// The mathematical value of a [`Track`]: every field as a plain value or a
/// sequence. Contracts throughout the crate speak of tracks through this view.
#[verifier::ext_equal]
pub struct TrackView {
    pub title: Option<Seq<char>>,
    pub file_path: Option<Seq<char>>,
    pub payload: Seq<u8>,
    pub duration_ms: u64,
}

impl TrackView {
    /// The label a front end should display: the title when one is present,
    /// otherwise the file path.
    pub open spec fn label(self) -> Option<Seq<char>> {
        if self.title is Some {
            self.title
        } else {
            self.file_path
        }
    }
}

/// The view of an optional string: the character sequence, when present.
pub open spec fn opt_string_view(o: Option<String>) -> Option<Seq<char>> {
    match o {
        Some(s) => Some(s@),
        None => None,
    }
}

/// One playable item: display metadata, an owned audio payload (opaque bytes;
/// decoding is external), and a fixed total duration in milliseconds. A track
/// is read-only after construction.
pub struct Track {
    title: Option<String>,
    file_path: Option<String>,
    payload: Vec<u8>,
    duration_ms: u64,
}

impl View for Track {
    type V = TrackView;

    closed spec fn view(&self) -> TrackView {
        TrackView {
            title: opt_string_view(self.title),
            file_path: opt_string_view(self.file_path),
            payload: self.payload@,
            duration_ms: self.duration_ms,
        }
    }
}

impl Track {
    /// Builds a track from its parts. The duration is fixed here and never
    /// changes afterwards.
    pub fn new(
        title: Option<String>,
        payload: Vec<u8>,
        duration_ms: u64,
        file_path: Option<String>,
    ) -> (t: Track)
        ensures
            t@ == (TrackView {
                title: opt_string_view(title),
                file_path: opt_string_view(file_path),
                payload: payload@,
                duration_ms,
            }),
    {
        Track { title, file_path, payload, duration_ms }
    }

    /// The fixed total length of the track in milliseconds.
    pub fn duration_ms(&self) -> (d: u64)
        ensures
            d == self@.duration_ms,
    {
        self.duration_ms
    }

    /// The title, when one was given.
    pub fn title(&self) -> (r: Option<&String>)
        ensures
            match r {
                Some(s) => self@.title == Some(s@),
                None => self@.title is None,
            },
    {
        self.title.as_ref()
    }

    /// The original source locator, when one was given.
    pub fn file_path(&self) -> (r: Option<&String>)
        ensures
            match r {
                Some(s) => self@.file_path == Some(s@),
                None => self@.file_path is None,
            },
    {
        self.file_path.as_ref()
    }

    /// The owned audio payload bytes.
    pub fn payload(&self) -> (r: &Vec<u8>)
        ensures
            r@ == self@.payload,
    {
        &self.payload
    }

    /// The label a front end should display: the title when present,
    /// otherwise the file path; `None` when the track has neither.
    pub fn display_label(&self) -> (r: Option<&String>)
        ensures
            match r {
                Some(s) => self@.label() == Some(s@),
                None => self@.label() is None,
            },
    {
        match self.title.as_ref() {
            Some(t) => Some(t),
            None => self.file_path.as_ref(),
        }
    }
}

fn clone_opt_string(o: &Option<String>) -> (r: Option<String>)
    ensures
        opt_string_view(r) == opt_string_view(*o),
{
    match o {
        Some(s) => Some(s.clone()),
        None => None,
    }
}

fn clone_bytes(v: &Vec<u8>) -> (r: Vec<u8>)
    ensures
        r@ == v@,
{
    let r = v.clone();
    proof {
        assert(r@ =~= v@);
    }
    r
}

impl Clone for Track {
    /// A clone has the same view as the original in every field.
    fn clone(&self) -> (r: Track)
        ensures
            r@ == self@,
    {
        Track {
            title: clone_opt_string(&self.title),
            file_path: clone_opt_string(&self.file_path),
            payload: clone_bytes(&self.payload),
            duration_ms: self.duration_ms,
        }
    }
}

} // verus!

//! Transient diagnostic text: the engine accumulates newline-delimited
//! lines between calls, and a drain hands the whole accumulation over
//! exactly once.

use vstd::prelude::*;

verus! {

/// An owned batch of drained diagnostic lines, in emission order.
#[derive(Debug)]
pub struct CddaString {
    /// The drained lines, in emission order.
    pub lines: Vec<String>,
}

impl View for CddaString {
    type V = Seq<Seq<char>>;

    open spec fn view(&self) -> Seq<Seq<char>> {
        self.lines.deep_view()
    }
}

impl CddaString {
    /// Takes ownership of a raw batch of lines the engine handed out;
    /// absent text (an empty batch) yields no value, as a drain with
    /// nothing pending does.
    pub fn from_raw(lines: Vec<String>) -> (r: Option<CddaString>)
        ensures
            lines.deep_view().len() == 0 <==> r is None,
            r matches Some(s) ==> s@ == lines.deep_view(),
    {
        if lines.len() == 0 {
            None
        } else {
            Some(CddaString { lines })
        }
    }

    /// The drained lines, in emission order.
    pub fn as_lines(&self) -> (r: &Vec<String>)
        ensures
            r.deep_view() == self@,
    {
        &self.lines
    }
}

/// What a drain yields and leaves behind: the whole accumulation when
/// anything is pending (`None` otherwise), and an empty buffer either way.
pub open spec fn spec_drain(buffered: Seq<Seq<char>>) -> (Option<Seq<Seq<char>>>, Seq<Seq<char>>) {
    (
        if buffered.len() == 0 {
            None
        } else {
            Some(buffered)
        },
        Seq::<Seq<char>>::empty(),
    )
}

/// A pending diagnostic buffer: lines accumulate in emission order until a
/// drain empties it.
#[derive(Debug)]
pub struct DiagBuffer {
    /// The pending lines, oldest first.
    pub lines: Vec<String>,
}

impl View for DiagBuffer {
    type V = Seq<Seq<char>>;

    open spec fn view(&self) -> Seq<Seq<char>> {
        self.lines.deep_view()
    }
}

impl DiagBuffer {
    /// An empty buffer with nothing pending.
    pub fn new() -> (r: DiagBuffer)
        ensures
            r@ =~= Seq::<Seq<char>>::empty(),
    {
        DiagBuffer { lines: Vec::new() }
    }

    /// Appends one line at the end of the pending accumulation.
    pub fn post(&mut self, line: String)
        ensures
            final(self)@ =~= old(self)@.push(line@),
    {
        self.lines.push(line);
    }

    /// Transfers ownership of the full accumulation, or signals that
    /// nothing is pending; the buffer is empty afterwards either way, so an
    /// immediate second drain yields nothing.
    pub fn drain(&mut self) -> (r: Option<CddaString>)
        ensures
            r matches Some(s) ==> Some(s@) == spec_drain(old(self)@).0,
            r is None ==> spec_drain(old(self)@).0 is None,
            final(self)@ =~= spec_drain(old(self)@).1,
    {
        let mut out: Vec<String> = Vec::new();
        core::mem::swap(&mut out, &mut self.lines);
        CddaString::from_raw(out)
    }
}

/// Law: draining is not cached across calls.  Whatever a first drain found,
/// a second drain with no new activity in between finds nothing pending and
/// yields none.
pub proof fn lemma_second_drain_yields_none(buffered: Seq<Seq<char>>)
    ensures
        spec_drain(spec_drain(buffered).1).0 is None,
{
}

} // verus!

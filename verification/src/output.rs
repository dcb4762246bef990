//! Collecting the output of a running subprocess.
//!
//! The subprocess reports its output as a sequence of events. The collector
//! takes them in arrival order, decodes each chunk lossily, and appends it to
//! the buffer under the tag of its stream. Nothing is ever removed or
//! reordered, so each stream keeps its own order; how the two streams
//! interleave is whatever the arrival order was.

use vstd::prelude::*;
use vstd::string::*;
use crate::text::{decode_output, output_text};

verus! {

/// The stream that a chunk of output came from.
#[derive(Debug, Clone, Copy, PartialEq, Eq, Structural)]
pub enum StreamTag {
    Stdout,
    Stderr,
}

/// One report from a running subprocess.
#[derive(Debug, Clone, PartialEq, Eq)]
pub enum OutputEvent {
    /// A chunk written to stdout.
    Stdout(Vec<u8>),
    /// A chunk written to stderr.
    Stderr(Vec<u8>),
    /// A fault of the pipe, in words.
    Error(String),
    /// The process ended.
    Terminated,
}

/// An `OutputEvent` with its payload as a sequence.
pub enum OutputEventView {
    Stdout(Seq<u8>),
    Stderr(Seq<u8>),
    Error(Seq<char>),
    Terminated,
}

impl View for OutputEvent {
    type V = OutputEventView;

    open spec fn view(&self) -> OutputEventView {
        match self {
            OutputEvent::Stdout(bytes) => OutputEventView::Stdout(bytes@),
            OutputEvent::Stderr(bytes) => OutputEventView::Stderr(bytes@),
            OutputEvent::Error(detail) => OutputEventView::Error(detail@),
            OutputEvent::Terminated => OutputEventView::Terminated,
        }
    }
}

/// One collected chunk: its stream and its decoded text.
#[derive(Debug, Clone, PartialEq, Eq)]
pub struct OutputEntry {
    pub tag: StreamTag,
    pub text: String,
}

/// An `OutputEntry` with its text as a character sequence.
pub struct OutputEntryView {
    pub tag: StreamTag,
    pub text: Seq<char>,
}

impl View for OutputEntry {
    type V = OutputEntryView;

    open spec fn view(&self) -> OutputEntryView {
        OutputEntryView { tag: self.tag, text: self.text@ }
    }
}

/// The views of a list of events, in order.
pub open spec fn event_views(events: Seq<OutputEvent>) -> Seq<OutputEventView> {
    Seq::new(events.len(), |i: int| events[i]@)
}

/// What one event adds to the buffer: a chunk of either stream adds one
/// entry, its bytes decoded lossily; any other event adds nothing.
pub open spec fn entries_of(event: OutputEventView) -> Seq<OutputEntryView> {
    match event {
        OutputEventView::Stdout(bytes) => seq![
            OutputEntryView { tag: StreamTag::Stdout, text: output_text(bytes) },
        ],
        OutputEventView::Stderr(bytes) => seq![
            OutputEntryView { tag: StreamTag::Stderr, text: output_text(bytes) },
        ],
        OutputEventView::Error(_) => Seq::empty(),
        OutputEventView::Terminated => Seq::empty(),
    }
}

/// What a sequence of events adds to the buffer, in arrival order.
pub open spec fn collected(events: Seq<OutputEventView>) -> Seq<OutputEntryView>
    decreases events.len(),
{
    if events.len() == 0 {
        Seq::empty()
    } else {
        collected(events.drop_last()) + entries_of(events.last())
    }
}

/// The texts of one stream among the entries, in order.
pub open spec fn stream_of(entries: Seq<OutputEntryView>, tag: StreamTag) -> Seq<Seq<char>>
    decreases entries.len(),
{
    if entries.len() == 0 {
        Seq::empty()
    } else if entries.last().tag == tag {
        stream_of(entries.drop_last(), tag).push(entries.last().text)
    } else {
        stream_of(entries.drop_last(), tag)
    }
}

/// The chunks of one stream among the events, in order.
pub open spec fn chunks_of(events: Seq<OutputEventView>, tag: StreamTag) -> Seq<Seq<u8>>
    decreases events.len(),
{
    if events.len() == 0 {
        Seq::empty()
    } else {
        let earlier = chunks_of(events.drop_last(), tag);
        match events.last() {
            OutputEventView::Stdout(bytes) => if tag == StreamTag::Stdout {
                earlier.push(bytes)
            } else {
                earlier
            },
            OutputEventView::Stderr(bytes) => if tag == StreamTag::Stderr {
                earlier.push(bytes)
            } else {
                earlier
            },
            OutputEventView::Error(_) => earlier,
            OutputEventView::Terminated => earlier,
        }
    }
}

/// Each chunk decoded lossily, in order.
pub open spec fn decoded(chunks: Seq<Seq<u8>>) -> Seq<Seq<char>> {
    Seq::new(chunks.len(), |i: int| output_text(chunks[i]))
}

/// The label that a rendered line starts with.
pub open spec fn tag_label(tag: StreamTag) -> Seq<char> {
    match tag {
        StreamTag::Stdout => "[stdout] "@,
        StreamTag::Stderr => "[stderr] "@,
    }
}

/// One entry as a line of the log: label, text, line feed.
pub open spec fn entry_line(entry: OutputEntryView) -> Seq<char> {
    tag_label(entry.tag) + entry.text + "\n"@
}

/// The log as one text: the line of each entry, in order.
pub open spec fn rendered(entries: Seq<OutputEntryView>) -> Seq<char>
    decreases entries.len(),
{
    if entries.len() == 0 {
        Seq::empty()
    } else {
        rendered(entries.drop_last()) + entry_line(entries.last())
    }
}

/// The append-only log of one subprocess's output.
#[derive(Debug)]
pub struct OutputBuffer {
    entries: Vec<OutputEntry>,
}

impl View for OutputBuffer {
    type V = Seq<OutputEntryView>;

    closed spec fn view(&self) -> Seq<OutputEntryView> {
        Seq::new(self.entries@.len(), |i: int| self.entries@[i]@)
    }
}

impl OutputBuffer {
    /// An empty log.
    pub fn new() -> (buffer: OutputBuffer)
        ensures
            buffer@ == Seq::<OutputEntryView>::empty(),
    {
        let buffer = OutputBuffer { entries: Vec::new() };
        assert(buffer@ =~= Seq::<OutputEntryView>::empty());
        buffer
    }

    /// The number of entries.
    pub fn len(&self) -> (n: usize)
        ensures
            n == self@.len(),
    {
        self.entries.len()
    }

    /// The stream of entry `i`.
    pub fn tag_at(&self, i: usize) -> (tag: StreamTag)
        requires
            i < self@.len(),
        ensures
            tag == self@[i as int].tag,
    {
        self.entries[i].tag
    }

    /// The text of entry `i`.
    pub fn text_at(&self, i: usize) -> (text: &str)
        requires
            i < self@.len(),
        ensures
            text@ == self@[i as int].text,
    {
        self.entries[i].text.as_str()
    }

    /// Appends one entry of decoded text under the tag of its stream, and
    /// keeps all that was there.
    pub fn append_entry(&mut self, tag: StreamTag, text: String)
        ensures
            final(self)@ == old(self)@.push(OutputEntryView { tag, text: text@ }),
    {
        self.entries.push(OutputEntry { tag, text });
        assert(self@ =~= old(self)@.push(OutputEntryView { tag, text: text@ }));
    }

    /// Takes one event: appends what it adds, and keeps all that was there.
    pub fn record(&mut self, event: &OutputEvent)
        ensures
            final(self)@ == old(self)@ + entries_of(event@),
    {
        match event {
            OutputEvent::Stdout(bytes) => {
                let text = decode_output(bytes);
                self.append_entry(StreamTag::Stdout, text);
                assert(self@ =~= old(self)@ + entries_of(event@));
            },
            OutputEvent::Stderr(bytes) => {
                let text = decode_output(bytes);
                self.append_entry(StreamTag::Stderr, text);
                assert(self@ =~= old(self)@ + entries_of(event@));
            },
            OutputEvent::Error(_) => {
                assert(self@ =~= old(self)@ + entries_of(event@));
            },
            OutputEvent::Terminated => {
                assert(self@ =~= old(self)@ + entries_of(event@));
            },
        }
    }

    /// Takes the events in arrival order, to the last one.
    pub fn collect(&mut self, events: &Vec<OutputEvent>)
        ensures
            final(self)@ == old(self)@ + collected(event_views(events@)),
    {
        let ghost all = event_views(events@);
        let mut i: usize = 0;
        assert(all.take(0) =~= Seq::<OutputEventView>::empty());
        assert(self@ =~= old(self)@ + collected(all.take(0)));
        while i < events.len()
            invariant
                i <= events.len(),
                all == event_views(events@),
                self@ == old(self)@ + collected(all.take(i as int)),
            decreases events.len() - i,
        {
            self.record(&events[i]);
            proof {
                let upto = all.take(i as int + 1);
                assert(upto.drop_last() =~= all.take(i as int));
                assert(upto.last() == events@[i as int]@);
                assert(self@ =~= old(self)@ + collected(upto));
            }
            i = i + 1;
        }
        assert(all.take(i as int) =~= all);
    }

    /// The texts of one stream, in the order in which they were collected.
    pub fn stream_texts(&self, tag: StreamTag) -> (texts: Vec<String>)
        ensures
            crate::command::texts_of(texts@) == stream_of(self@, tag),
    {
        let mut texts: Vec<String> = Vec::new();
        let mut i: usize = 0;
        assert(self@.take(0) =~= Seq::<OutputEntryView>::empty());
        assert(crate::command::texts_of(texts@) =~= stream_of(self@.take(0), tag));
        while i < self.entries.len()
            invariant
                i <= self.entries.len(),
                self.entries.len() == self@.len(),
                crate::command::texts_of(texts@) == stream_of(self@.take(i as int), tag),
            decreases self.entries.len() - i,
        {
            let ghost before = crate::command::texts_of(texts@);
            proof {
                let upto = self@.take(i as int + 1);
                assert(upto.drop_last() =~= self@.take(i as int));
                assert(upto.last() == self.entries@[i as int]@);
            }
            if self.entries[i].tag == tag {
                texts.push(self.entries[i].text.clone());
                assert(crate::command::texts_of(texts@) =~= before.push(
                    self.entries@[i as int].text@,
                ));
            }
            i = i + 1;
        }
        assert(self@.take(i as int) =~= self@);
        texts
    }

    /// The log as one text, a labelled line for each entry.
    pub fn render(&self) -> (text: String)
        ensures
            text@ == rendered(self@),
    {
        let mut text = String::new();
        let mut i: usize = 0;
        assert(self@.take(0) =~= Seq::<OutputEntryView>::empty());
        while i < self.entries.len()
            invariant
                i <= self.entries.len(),
                self.entries.len() == self@.len(),
                text@ == rendered(self@.take(i as int)),
            decreases self.entries.len() - i,
        {
            let ghost before = text@;
            proof {
                let upto = self@.take(i as int + 1);
                assert(upto.drop_last() =~= self@.take(i as int));
                assert(upto.last() == self.entries@[i as int]@);
            }
            match self.entries[i].tag {
                StreamTag::Stdout => text.append("[stdout] "),
                StreamTag::Stderr => text.append("[stderr] "),
            }
            text.append(self.entries[i].text.as_str());
            text.append("\n");
            assert(text@ =~= before + entry_line(self.entries@[i as int]@));
            i = i + 1;
        }
        assert(self@.take(i as int) =~= self@);
        text
    }
}

/// Entries appended later do not disturb a stream: the stream of a
/// concatenation is the concatenation of the streams.
pub proof fn lemma_stream_of_concat(
    first: Seq<OutputEntryView>,
    second: Seq<OutputEntryView>,
    tag: StreamTag,
)
    ensures
        stream_of(first + second, tag) == stream_of(first, tag) + stream_of(second, tag),
    decreases second.len(),
{
    if second.len() == 0 {
        assert(first + second =~= first);
        assert(stream_of(first, tag) + stream_of(second, tag) =~= stream_of(first, tag));
    } else {
        let whole = first + second;
        assert(whole.drop_last() =~= first + second.drop_last());
        assert(whole.last() == second.last());
        lemma_stream_of_concat(first, second.drop_last(), tag);
        if second.last().tag == tag {
            assert(stream_of(whole, tag) =~= stream_of(first, tag) + stream_of(second, tag));
        }
    }
}

/// Each stream keeps its order: whatever the interleaving of the events, the
/// texts collected for one stream are the chunks of that stream, decoded, in
/// the order in which the subprocess wrote them.
pub proof fn lemma_stream_order_preserved(events: Seq<OutputEventView>, tag: StreamTag)
    ensures
        stream_of(collected(events), tag) == decoded(chunks_of(events, tag)),
    decreases events.len(),
{
    if events.len() == 0 {
        assert(stream_of(collected(events), tag) =~= decoded(chunks_of(events, tag)));
    } else {
        let earlier = events.drop_last();
        lemma_stream_order_preserved(earlier, tag);
        lemma_stream_of_concat(collected(earlier), entries_of(events.last()), tag);
        let added = entries_of(events.last());
        if added.len() == 1 {
            assert(added.drop_last() =~= Seq::<OutputEntryView>::empty());
            assert(stream_of(added.drop_last(), tag) =~= Seq::<Seq<char>>::empty());
        }
        assert(stream_of(collected(events), tag) =~= decoded(chunks_of(events, tag)));
    }
}

/// The buffer only grows: what was collected before later events arrive is a
/// prefix of what is collected after them.
pub proof fn lemma_collected_is_append_only(
    earlier: Seq<OutputEventView>,
    later: Seq<OutputEventView>,
)
    ensures
        collected(earlier + later) == collected(earlier) + collected(later),
    decreases later.len(),
{
    if later.len() == 0 {
        assert(earlier + later =~= earlier);
        assert(collected(earlier) + collected(later) =~= collected(earlier));
    } else {
        let whole = earlier + later;
        assert(whole.drop_last() =~= earlier + later.drop_last());
        assert(whole.last() == later.last());
        lemma_collected_is_append_only(earlier, later.drop_last());
        assert(collected(whole) =~= collected(earlier) + collected(later));
    }
}

} // verus!

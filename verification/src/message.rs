//! The transfer protocol between the simulator and the debug window.
//!
//! The window receives a stream of messages. A transfer is a
//! `StartTransfer` marker, the lines of one frame, and an `EndTransfer`
//! marker. When the window draws, it draws the lines of the most recent
//! complete transfer and forgets everything that came before that
//! transfer's start marker.
use std::collections::VecDeque;
use vstd::prelude::*;

verus! {

/// One message of the debug stream; `L` is the line payload.
#[derive(Clone, Copy, Debug, PartialEq)]
pub enum Message<L> {
    Line(L),
    StartTransfer,
    EndTransfer,
}

/// The failure of a non-blocking receive: either the channel failed with
/// an error of type `E`, or nothing was waiting.
#[derive(Debug)]
pub enum TryRecvError<E> {
    IpcError(E),
    Empty,
}

/// What the reading loop does after one receive attempt.
#[derive(Debug)]
pub enum ReadStep<E> {
    /// A message was buffered; try to receive again.
    Continue,
    /// Nothing is waiting: the reading loop ends successfully.
    Finished,
    /// The channel failed: the reading loop ends with this error.
    Failed(E),
}

/// Whether `m` is the end marker (`end`) or the start marker (`!end`).
pub open spec fn is_marker<L>(m: Message<L>, end: bool) -> bool {
    if end {
        m is EndTransfer
    } else {
        m is StartTransfer
    }
}

/// The index of the last marker of the given kind among the first `n`
/// messages of `s`, or -1 when there is none.
pub open spec fn last_marker_before<L>(s: Seq<Message<L>>, n: int, end: bool) -> int
    decreases n,
{
    if n <= 0 {
        -1
    } else if is_marker(s[n - 1], end) {
        n - 1
    } else {
        last_marker_before(s, n - 1, end)
    }
}

/// The last marker before `n` lies below `n`, and is a marker of that kind
/// with no other such marker between it and `n`.
pub proof fn lemma_last_marker_bounds<L>(s: Seq<Message<L>>, n: int, end: bool)
    requires
        0 <= n <= s.len(),
    ensures
        -1 <= last_marker_before(s, n, end) < n,
        last_marker_before(s, n, end) >= 0 ==> is_marker(
            s[last_marker_before(s, n, end)],
            end,
        ),
        forall|i: int|
            last_marker_before(s, n, end) < i < n ==> !is_marker(#[trigger] s[i], end),
    decreases n,
{
    if n > 0 && !is_marker(s[n - 1], end) {
        lemma_last_marker_bounds(s, n - 1, end);
    }
}

/// The index of the last end marker of `s`, or -1.
pub open spec fn last_end<L>(s: Seq<Message<L>>) -> int {
    last_marker_before(s, s.len() as int, true)
}

/// The index of the start marker that opens the latest complete transfer:
/// the last start marker before the last end marker, or -1.
pub open spec fn transfer_start<L>(s: Seq<Message<L>>) -> int {
    last_marker_before(s, last_end(s), false)
}

/// A buffer from which the latest transfer can be drawn: either it holds
/// no end marker, or its last end marker closes a transfer whose start
/// marker is present and between the two there are only lines.
pub open spec fn drawable<L>(s: Seq<Message<L>>) -> bool {
    last_end(s) >= 0 ==> {
        &&& transfer_start(s) >= 0
        &&& forall|i: int| transfer_start(s) < i < last_end(s) ==> #[trigger] s[i] is Line
    }
}

/// The payload of a line message.
pub open spec fn line_of<L>(m: Message<L>) -> L {
    m->Line_0
}

/// The lines of the latest complete transfer, in the order received;
/// empty when no transfer has been completed.
pub open spec fn latest_lines<L>(s: Seq<Message<L>>) -> Seq<L> {
    if last_end(s) < 0 {
        Seq::empty()
    } else {
        s.subrange(transfer_start(s) + 1, last_end(s)).map_values(|m: Message<L>| line_of(m))
    }
}

/// What stays buffered after drawing: everything from the start marker of
/// the latest complete transfer on, or the whole buffer when no transfer
/// has been completed.
pub open spec fn retained<L>(s: Seq<Message<L>>) -> Seq<Message<L>> {
    if last_end(s) < 0 {
        s
    } else {
        s.subrange(transfer_start(s), s.len() as int)
    }
}

/// The messages received by the window and not yet discarded.
pub struct MessageBuffer<L> {
    messages: VecDeque<Message<L>>,
}

impl<L> View for MessageBuffer<L> {
    type V = Seq<Message<L>>;

    closed spec fn view(&self) -> Seq<Message<L>> {
        self.messages@
    }
}

impl<L: Copy> MessageBuffer<L> {
    /// An empty buffer.
    pub fn new() -> (buffer: Self)
        ensures
            buffer@ == Seq::<Message<L>>::empty(),
    {
        MessageBuffer { messages: VecDeque::new() }
    }

    /// The number of buffered messages.
    pub fn len(&self) -> (n: usize)
        ensures
            n == self@.len(),
    {
        self.messages.len()
    }

    /// Appends a received message.
    pub fn push_back(&mut self, message: Message<L>)
        ensures
            final(self)@ == old(self)@.push(message),
    {
        self.messages.push_back(message);
    }

    /// Takes the outcome of one non-blocking receive and says how the
    /// reading loop goes on: a message is buffered and the loop continues,
    /// an empty channel ends it, a failed channel ends it with the error.
    pub fn read_step<E>(&mut self, received: Result<Message<L>, TryRecvError<E>>) -> (step:
        ReadStep<E>)
        ensures
            match received {
                Ok(m) => step is Continue && final(self)@ == old(self)@.push(m),
                Err(TryRecvError::Empty) => step is Finished && final(self)@ == old(self)@,
                Err(TryRecvError::IpcError(e)) => step == ReadStep::Failed(e) && final(self)@
                    == old(self)@,
            },
    {
        match received {
            Ok(m) => {
                self.messages.push_back(m);
                ReadStep::Continue
            },
            Err(TryRecvError::Empty) => ReadStep::Finished,
            Err(TryRecvError::IpcError(e)) => ReadStep::Failed(e),
        }
    }

    /// Finds, searching backwards from `n`, the last marker of the given kind
    /// before index `n`.
    fn find_last_marker(&self, n: usize, end: bool) -> (found: Option<usize>)
        requires
            n <= self@.len(),
        ensures
            match found {
                Some(i) => i == last_marker_before(self@, n as int, end),
                None => last_marker_before(self@, n as int, end) == -1,
            },
    {
        let mut k: usize = n;
        while k > 0
            invariant
                k <= n <= self@.len(),
                last_marker_before(self@, n as int, end) == last_marker_before(
                    self@,
                    k as int,
                    end,
                ),
            decreases k,
        {
            let hit = match &self.messages[k - 1] {
                Message::EndTransfer => end,
                Message::StartTransfer => !end,
                Message::Line(_) => false,
            };
            if hit {
                return Some(k - 1);
            }
            k = k - 1;
        }
        None
    }

    /// Whether the latest transfer can be drawn: no end marker has been
    /// received, or the last one closes a transfer that has a start marker
    /// and only lines between the two markers.
    pub fn is_drawable(&self) -> (ok: bool)
        ensures
            ok == drawable(self@),
    {
        let len: usize = self.messages.len();
        let end = match self.find_last_marker(len, true) {
            Some(i) => i,
            None => return true,
        };
        proof {
            lemma_last_marker_bounds(self@, self@.len() as int, true);
        }
        let start = match self.find_last_marker(end, false) {
            Some(i) => i,
            None => return false,
        };
        proof {
            lemma_last_marker_bounds(self@, end as int, false);
        }
        let mut i: usize = start + 1;
        while i < end
            invariant
                start as int == transfer_start(self@),
                end as int == last_end(self@),
                start < i <= end < self@.len(),
                forall|j: int| start < j < i ==> #[trigger] self@[j] is Line,
            decreases end - i,
        {
            match &self.messages[i] {
                Message::Line(_) => {},
                _ => {
                    return false;
                },
            }
            i = i + 1;
        }
        true
    }

    /// Returns the lines of the latest complete transfer and discards every
    /// message before that transfer's start marker. When no transfer has
    /// been completed, returns no lines and keeps the buffer as it is.
    pub fn get_most_up_to_date_lines_to_draw(&mut self) -> (lines: Vec<L>)
        requires
            drawable(old(self)@),
        ensures
            lines@ == latest_lines(old(self)@),
            final(self)@ == retained(old(self)@),
    {
        let ghost s = self@;
        let len: usize = self.messages.len();
        let last_transfer_end = match self.find_last_marker(len, true) {
            Some(i) => i,
            None => return Vec::new(),
        };
        proof {
            lemma_last_marker_bounds(s, s.len() as int, true);
        }
        let last_transfer_start = match self.find_last_marker(last_transfer_end, false) {
            Some(i) => i,
            None => return Vec::new(),
        };
        proof {
            lemma_last_marker_bounds(s, last_transfer_end as int, false);
        }
        let mut lines: Vec<L> = Vec::new();
        let mut i: usize = last_transfer_start + 1;
        while i < last_transfer_end
            invariant
                s == self@,
                last_transfer_start as int == transfer_start(s),
                last_transfer_end as int == last_end(s),
                drawable(s),
                last_transfer_start < i <= last_transfer_end,
                last_transfer_end < s.len(),
                lines@ == s.subrange(last_transfer_start + 1, i as int).map_values(
                    |m: Message<L>| line_of(m),
                ),
            decreases last_transfer_end - i,
        {
            assert(s[i as int] is Line);
            match &self.messages[i] {
                Message::Line(l) => {
                    lines.push(*l);
                },
                _ => {},
            }
            assert(s.subrange(last_transfer_start + 1, i + 1).map_values(|m: Message<L>| line_of(m))
                =~= s.subrange(last_transfer_start + 1, i as int).map_values(
                |m: Message<L>| line_of(m),
            ).push(line_of(s[i as int])));
            i = i + 1;
        }
        let kept = self.messages.split_off(last_transfer_start);
        self.messages = kept;
        lines
    }
}

/// The messages by which one frame of lines is sent: a start marker, one
/// line message per line, an end marker.
pub open spec fn transfer<L>(lines: Seq<L>) -> Seq<Message<L>> {
    seq![Message::StartTransfer].add(lines.map_values(|l: L| Message::Line(l))).push(
        Message::EndTransfer,
    )
}

/// The messages of a transfer are exactly one start marker, then one line
/// message per line in the order of the lines, then one end marker: there
/// are two messages more than lines, the first is the start marker, the
/// last is the end marker, and every message between them is a line.
pub proof fn lemma_transfer_is_start_lines_end<L>(lines: Seq<L>)
    ensures
        transfer(lines).len() == lines.len() + 2,
        transfer(lines)[0] == Message::<L>::StartTransfer,
        transfer(lines)[lines.len() + 1int] == Message::<L>::EndTransfer,
        transfer(lines).last() == Message::<L>::EndTransfer,
        forall|i: int| 0 <= i < lines.len() ==> #[trigger] transfer(lines)[i + 1] == Message::Line(lines[i]),
        forall|i: int| 0 < i < lines.len() + 1 ==> #[trigger] transfer(lines)[i] is Line,
        last_end(transfer(lines)) == lines.len() + 1,
        transfer_start(transfer(lines)) == 0,
{
    let t = transfer(lines);
    assert(t.len() == lines.len() + 2);
    assert forall|i: int| 0 <= i < lines.len() implies #[trigger] t[i + 1] == Message::Line(lines[i]) by {}
    assert forall|i: int| 0 < i < lines.len() + 1 implies #[trigger] t[i] is Line by {
        assert(t[(i - 1) + 1] == Message::Line(lines[i - 1]));
    }
    assert(t[t.len() - 1] == Message::<L>::EndTransfer);
    assert(last_end(t) == lines.len() + 1);
    assert forall|i: int| 0 < i < lines.len() + 1 implies !is_marker(#[trigger] t[i], false) by {
        assert(t[i] is Line);
    }
    lemma_no_marker_between(t, 0, lines.len() + 1int, false);
}

/// When the marker at `p` is followed by no marker of its kind up to `k`,
/// it is the last such marker before `k`.
proof fn lemma_no_marker_between<L>(s: Seq<Message<L>>, p: int, k: int, end: bool)
    requires
        0 <= p < k <= s.len(),
        is_marker(s[p], end),
        forall|i: int| p < i < k ==> !is_marker(#[trigger] s[i], end),
    ensures
        last_marker_before(s, k, end) == p,
    decreases k,
{
    if k - 1 > p {
        lemma_no_marker_between(s, p, k - 1, end);
    }
}

/// Appending messages does not change where the last marker before an
/// index of the buffer it extends lies.
proof fn lemma_marker_prefix<L>(s: Seq<Message<L>>, t: Seq<Message<L>>, k: int, end: bool)
    requires
        0 <= k <= s.len(),
    ensures
        last_marker_before(s + t, k, end) == last_marker_before(s, k, end),
    decreases k,
{
    if k > 0 {
        assert((s + t)[k - 1] == s[k - 1]);
        lemma_marker_prefix(s, t, k - 1, end);
    }
}

/// Appending messages that hold no marker of a kind does not move the last
/// marker of that kind.
proof fn lemma_marker_unmoved<L>(s: Seq<Message<L>>, t: Seq<Message<L>>, k: int, end: bool)
    requires
        s.len() <= k <= s.len() + t.len(),
        forall|i: int| 0 <= i < t.len() ==> !is_marker(#[trigger] t[i], end),
    ensures
        last_marker_before(s + t, k, end) == last_marker_before(s, s.len() as int, end),
    decreases k,
{
    if k > s.len() {
        assert((s + t)[k - 1] == t[k - 1 - s.len()]);
        lemma_marker_unmoved(s, t, k - 1, end);
    } else {
        lemma_marker_prefix(s, t, k, end);
    }
}

/// A complete transfer appended to any buffer, whatever that buffer holds,
/// is what the window draws next: the lines come back exactly as sent, and
/// only that transfer stays buffered.
pub proof fn lemma_complete_transfer_is_drawn<L>(buffer: Seq<Message<L>>, lines: Seq<L>)
    ensures
        drawable(buffer + transfer(lines)),
        latest_lines(buffer + transfer(lines)) == lines,
        retained(buffer + transfer(lines)) == transfer(lines),
{
    let t = transfer(lines);
    let s = buffer + t;
    let p = buffer.len() as int;
    let n = s.len() as int;
    assert(t.len() == lines.len() + 2);
    assert(s[n - 1] == Message::<L>::EndTransfer);
    assert(last_end(s) == n - 1);
    assert forall|i: int| p < i < n - 1 implies #[trigger] s[i] == Message::Line(lines[i - p - 1]) by {
        assert(s[i] == t[i - p]);
    }
    assert(s[p] == t[0]);
    assert forall|i: int| p < i < n - 1 implies !is_marker(#[trigger] s[i], false) by {
        assert(s[i] == Message::Line(lines[i - p - 1]));
    }
    lemma_no_marker_between(s, p, n - 1, false);
    assert(transfer_start(s) == p);
    assert(latest_lines(s) =~= lines);
    assert(retained(s) =~= t);
}

/// What is drawn, in terms of the buffer itself. When the buffer holds no
/// end marker, nothing is drawn and nothing is discarded. Otherwise there
/// is a start marker at some index `st` and an end marker at a later index
/// `e` such that no end marker follows `e` and only lines lie between
/// them; the lines drawn are the payloads of those line messages in order,
/// and the messages kept are those from `st` on.
pub proof fn lemma_latest_transfer_characterized<L>(s: Seq<Message<L>>)
    requires
        drawable(s),
    ensures
        (forall|i: int| 0 <= i < s.len() ==> !(#[trigger] s[i] is EndTransfer)) ==> {
            &&& latest_lines(s).len() == 0
            &&& retained(s) == s
        },
        (exists|i: int| 0 <= i < s.len() && #[trigger] s[i] is EndTransfer) ==> {
            let st = transfer_start(s);
            let e = last_end(s);
            &&& 0 <= st < e < s.len()
            &&& s[st] is StartTransfer
            &&& s[e] is EndTransfer
            &&& forall|i: int| e < i < s.len() ==> !(#[trigger] s[i] is EndTransfer)
            &&& forall|i: int| st < i < e ==> #[trigger] s[i] is Line
            &&& latest_lines(s).len() == e - st - 1
            &&& forall|i: int|
                0 <= i < e - st - 1 ==> s[st + 1 + i] == Message::Line(
                    #[trigger] latest_lines(s)[i],
                )
            &&& retained(s).len() == s.len() - st
            &&& forall|i: int| 0 <= i < s.len() - st ==> #[trigger] retained(s)[i] == s[st + i]
        },
{
    let n = s.len() as int;
    lemma_last_marker_bounds(s, n, true);
    if last_end(s) >= 0 {
        lemma_last_marker_bounds(s, last_end(s), false);
        let st = transfer_start(s);
        let e = last_end(s);
        assert forall|i: int| e < i < n implies !(#[trigger] s[i] is EndTransfer) by {
            assert(!is_marker(s[i], true));
        }
        assert forall|i: int| 0 <= i < e - st - 1 implies s[st + 1 + i] == Message::Line(
            #[trigger] latest_lines(s)[i],
        ) by {
            assert(s[st + 1 + i] is Line);
        }
    } else {
        assert forall|i: int| 0 <= i < n implies !(#[trigger] s[i] is EndTransfer) by {
            assert(!is_marker(s[i], true));
        }
    }
    if exists|i: int| 0 <= i < s.len() && #[trigger] s[i] is EndTransfer {
        let i = choose|i: int| 0 <= i < s.len() && #[trigger] s[i] is EndTransfer;
        assert(is_marker(s[i], true));
    }
}

/// Drawing twice in a row draws the same lines, and the second draw keeps
/// the buffer as the first one left it.
pub proof fn lemma_draw_is_idempotent<L>(s: Seq<Message<L>>)
    requires
        drawable(s),
    ensures
        drawable(retained(s)),
        latest_lines(retained(s)) == latest_lines(s),
        retained(retained(s)) == retained(s),
{
    if last_end(s) >= 0 {
        let e = last_end(s);
        let st = transfer_start(s);
        let n = s.len() as int;
        lemma_last_marker_bounds(s, n, true);
        lemma_last_marker_bounds(s, e, false);
        let r = retained(s);
        assert(r =~= s.subrange(st, n));
        assert forall|i: int| e - st < i < r.len() implies !is_marker(#[trigger] r[i], true) by {
            assert(r[i] == s[st + i]);
        }
        assert(r[e - st] == s[e]);
        lemma_no_marker_between(r, e - st, r.len() as int, true);
        assert(last_end(r) == e - st);
        assert forall|i: int| 0 < i < e - st implies !is_marker(#[trigger] r[i], false) by {
            assert(r[i] == s[st + i]);
            assert(s[st + i] is Line);
        }
        assert(r[0] == s[st]);
        lemma_no_marker_between(r, 0, e - st, false);
        assert(transfer_start(r) == 0);
        assert forall|i: int| transfer_start(r) < i < last_end(r) implies #[trigger] r[i] is Line by {
            assert(r[i] == s[st + i]);
        }
        assert(r.subrange(1, e - st) =~= s.subrange(st + 1, e));
        assert(retained(r) =~= r);
    }
}

/// Messages of a transfer that has not ended yet (messages holding no end
/// marker) change neither whether the buffer can be drawn nor what is
/// drawn; drawing a drawable buffer keeps them after the retained messages.
pub proof fn lemma_unfinished_transfer_ignored<L>(s: Seq<Message<L>>, t: Seq<Message<L>>)
    requires
        forall|i: int| 0 <= i < t.len() ==> !(#[trigger] t[i] is EndTransfer),
    ensures
        drawable(s + t) == drawable(s),
        latest_lines(s + t) == latest_lines(s),
        drawable(s) ==> retained(s + t) == retained(s) + t,
{
    let u = s + t;
    let n = s.len() as int;
    assert forall|i: int| 0 <= i < t.len() implies !is_marker(#[trigger] t[i], true) by {}
    lemma_marker_unmoved(s, t, u.len() as int, true);
    assert(last_end(u) == last_end(s));
    lemma_last_marker_bounds(s, n, true);
    if last_end(s) >= 0 {
        lemma_marker_prefix(s, t, last_end(s), false);
        assert(transfer_start(u) == transfer_start(s));
        assert forall|i: int| 0 <= i < n implies #[trigger] u[i] == s[i] by {}
        lemma_last_marker_bounds(s, last_end(s), false);
        assert(u.subrange(transfer_start(s) + 1, last_end(s)) =~= s.subrange(
            transfer_start(s) + 1,
            last_end(s),
        ));
        if transfer_start(s) >= 0 {
            assert(u.subrange(transfer_start(s), u.len() as int) =~= s.subrange(
                transfer_start(s),
                n,
            ) + t);
        }
        if drawable(s) != drawable(u) {
            if drawable(s) {
                let i = choose|i: int|
                    transfer_start(u) < i < last_end(u) && !(#[trigger] u[i] is Line);
                assert(u[i] == s[i]);
            } else {
                let i = choose|i: int|
                    transfer_start(s) < i < last_end(s) && !(#[trigger] s[i] is Line);
                assert(u[i] == s[i]);
            }
        }
    }
}

} // verus!

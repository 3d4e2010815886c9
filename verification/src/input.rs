//! The state of a one-line text input: the text typed so far and a cursor that moves
//! over it one grapheme cluster at a time.

use vstd::prelude::*;
use vstd::string::*;

verus! {

/// The extended grapheme clusters of a text, in order, as `unicode_segmentation`
/// cuts them.
pub uninterp spec fn grapheme_clusters(text: Seq<char>) -> Seq<Seq<char>>;

/// The pieces put together, one after the other.
pub open spec fn joined(pieces: Seq<Seq<char>>) -> Seq<char>
    decreases pieces.len(),
{
    if pieces.len() == 0 {
        Seq::empty()
    } else {
        joined(pieces.drop_last()) + pieces.last()
    }
}

/// The texts of a list of strings, in order.
pub open spec fn texts(strings: Seq<String>) -> Seq<Seq<char>> {
    Seq::new(strings.len(), |i: int| strings[i]@)
}

/// `unicode_segmentation::UnicodeSegmentation::graphemes` with extended clusters,
/// each cluster copied into a string of its own. The contract names the clusters
/// and states the one thing the cursor needs of them: they are consecutive pieces
/// of the text, so together they give the text back.
#[verifier::external_body]
fn clusters_of(text: &str) -> (r: Vec<String>)
    ensures
        texts(r@) == grapheme_clusters(text@),
        joined(texts(r@)) == text@,
{
    unicode_segmentation::UnicodeSegmentation::graphemes(text, true).map(|g| g.to_owned()).collect()
}

/// `String::push`: the character is appended to the end of the string.
pub assume_specification[ String::push ](s: &mut String, c: char)
    ensures
        final(s)@ == old(s)@.push(c),
;

/// Where each of `clusters` starts in the text they make up, counted in characters.
pub open spec fn cluster_starts(clusters: Seq<Seq<char>>) -> Seq<usize> {
    Seq::new(clusters.len(), |i: int| joined(clusters.take(i)).len() as usize)
}

/// Whether `starts[i]` is the first stop behind `cursor`.
pub open spec fn is_first_above(starts: Seq<usize>, cursor: usize, i: int) -> bool {
    &&& 0 <= i < starts.len()
    &&& starts[i] > cursor
    &&& forall|j: int| 0 <= j < i ==> (#[trigger] starts[j]) <= cursor
}

/// Where the cursor goes when it moves right: to the first stop behind it, or to
/// `end` where there is none.
pub open spec fn next_stop(starts: Seq<usize>, cursor: usize, end: usize) -> usize {
    if exists|i: int| is_first_above(starts, cursor, i) {
        starts[choose|i: int| is_first_above(starts, cursor, i)]
    } else {
        end
    }
}

/// Whether the first `k` stops, and no more, lie in a row before `cursor`.
pub open spec fn is_run_below(starts: Seq<usize>, cursor: usize, k: int) -> bool {
    &&& 0 <= k <= starts.len()
    &&& forall|j: int| 0 <= j < k ==> (#[trigger] starts[j]) < cursor
    &&& k < starts.len() ==> starts[k] >= cursor
}

/// Where the cursor goes when it moves left: to the last of the stops that lie in
/// a row before it, or nowhere where the first stop is not before it.
pub open spec fn previous_stop(starts: Seq<usize>, cursor: usize) -> usize {
    let k = choose|k: int| is_run_below(starts, cursor, k);
    if k > 0 {
        starts[k - 1]
    } else {
        cursor
    }
}

/// The length of the joined pieces grows with every piece.
pub proof fn lemma_joined_grows(pieces: Seq<Seq<char>>, i: int)
    requires
        0 <= i <= pieces.len(),
    ensures
        joined(pieces.take(i)).len() <= joined(pieces).len(),
    decreases pieces.len() - i,
{
    if i < pieces.len() {
        lemma_joined_grows(pieces, i + 1);
        assert(pieces.take(i + 1).drop_last() =~= pieces.take(i));
    } else {
        assert(pieces.take(i) =~= pieces);
    }
}

/// The first stop of `starts` behind `cursor`, or `end` where there is none.
pub fn stop_after(starts: &Vec<usize>, cursor: usize, end: usize) -> (r: usize)
    ensures
        r == next_stop(starts@, cursor, end),
{
    let mut i: usize = 0;
    while i < starts.len()
        invariant
            i <= starts@.len(),
            forall|j: int| 0 <= j < i ==> (#[trigger] starts@[j]) <= cursor,
        decreases starts@.len() - i,
    {
        if starts[i] > cursor {
            proof {
                assert(is_first_above(starts@, cursor, i as int));
                let chosen = choose|k: int| is_first_above(starts@, cursor, k);
                if chosen < i {
                    assert(starts@[chosen] <= cursor);
                } else if chosen > i {
                    assert(starts@[i as int] <= cursor);
                }
            }
            return starts[i];
        }
        i += 1;
    }
    end
}

/// The last of the stops that lie in a row before `cursor`, or `cursor` itself.
pub fn stop_before(starts: &Vec<usize>, cursor: usize) -> (r: usize)
    ensures
        r == previous_stop(starts@, cursor),
        r <= cursor,
        starts@.len() > 0 && starts@[0] < cursor ==> r < cursor,
{
    let mut k: usize = 0;
    while k < starts.len() && starts[k] < cursor
        invariant
            k <= starts@.len(),
            forall|j: int| 0 <= j < k ==> (#[trigger] starts@[j]) < cursor,
        decreases starts@.len() - k,
    {
        k += 1;
    }
    proof {
        assert(is_run_below(starts@, cursor, k as int));
        let chosen = choose|c: int| is_run_below(starts@, cursor, c);
        if chosen < k {
            assert(starts@[chosen] < cursor);
        } else if chosen > k {
            assert(starts@[k as int] < cursor);
        }
    }
    if k > 0 {
        starts[k - 1]
    } else {
        cursor
    }
}

/// The characters of `text` as a string.
pub fn string_of(text: &Vec<char>) -> (r: String)
    ensures
        r@ == text@,
{
    let mut out = String::new();
    let mut i: usize = 0;
    while i < text.len()
        invariant
            i <= text@.len(),
            out@ == text@.take(i as int),
        decreases text@.len() - i,
    {
        out.push(text[i]);
        assert(out@ =~= text@.take(i + 1));
        i += 1;
    }
    assert(text@.take(text@.len() as int) =~= text@);
    out
}

/// Where the grapheme clusters of `text` start, counted in characters.
pub fn cursor_stops(text: &Vec<char>) -> (r: Vec<usize>)
    ensures
        r@ == cluster_starts(grapheme_clusters(text@)),
        forall|i: int| 0 <= i < r@.len() ==> (#[trigger] r@[i]) <= text@.len(),
        text@.len() > 0 ==> r@.len() > 0 && r@[0] == 0,
{
    let n: usize = text.len();
    let clusters = clusters_of(string_of(text).as_str());
    let ghost pieces = grapheme_clusters(text@);
    proof {
        assert(pieces.take(0) =~= Seq::<Seq<char>>::empty());
    }
    let mut starts: Vec<usize> = Vec::new();
    let mut before: usize = 0;
    let mut i: usize = 0;
    while i < clusters.len()
        invariant
            i <= clusters@.len(),
            n == text@.len(),
            texts(clusters@) == pieces,
            joined(pieces) == text@,
            before == joined(pieces.take(i as int)).len(),
            starts@ == cluster_starts(pieces).take(i as int),
            forall|j: int| 0 <= j < starts@.len() ==> (#[trigger] starts@[j]) <= n,
        decreases clusters@.len() - i,
    {
        proof {
            lemma_joined_grows(pieces, i as int);
            lemma_joined_grows(pieces, i + 1);
            assert(pieces.take(i + 1).drop_last() =~= pieces.take(i as int));
            assert(pieces[i as int] == clusters@[i as int]@);
        }
        starts.push(before);
        assert(starts@ =~= cluster_starts(pieces).take(i + 1));
        before = before + clusters[i].as_str().unicode_len();
        i += 1;
    }
    assert(starts@ =~= cluster_starts(pieces));
    starts
}

/// The text typed so far and the place of the cursor in it.
#[derive(Clone, Debug, PartialEq, Eq)]
pub struct OwnStates {
    input: Vec<char>,
    cursor_position: usize,
}

impl Default for OwnStates {
    /// An empty input with the cursor at its beginning.
    fn default() -> (r: Self)
        ensures
            r.wf(),
            r.text() == Seq::<char>::empty(),
            r.cursor() == 0,
    {
        OwnStates::new()
    }
}

impl OwnStates {
    /// The text typed so far.
    pub closed spec fn text(&self) -> Seq<char> {
        self.input@
    }

    /// How many characters stand before the cursor.
    pub closed spec fn cursor(&self) -> usize {
        self.cursor_position
    }

    /// The state's invariant: the cursor stands within the text or at its end.
    pub open spec fn wf(&self) -> bool {
        self.cursor() <= self.text().len()
    }

    /// The stops of the cursor: where the grapheme clusters of the text start.
    pub open spec fn stops(&self) -> Seq<usize> {
        cluster_starts(grapheme_clusters(self.text()))
    }

    /// An empty input with the cursor at its beginning.
    pub fn new() -> (r: Self)
        ensures
            r.wf(),
            r.text() == Seq::<char>::empty(),
            r.cursor() == 0,
    {
        OwnStates { input: Vec::new(), cursor_position: 0 }
    }

    /// The text typed so far.
    pub fn value(&self) -> (r: String)
        ensures
            r@ == self.text(),
    {
        string_of(&self.input)
    }

    /// How many characters stand before the cursor.
    pub fn position(&self) -> (r: usize)
        ensures
            r == self.cursor(),
    {
        self.cursor_position
    }

    /// How many grapheme clusters the text before the cursor has: the column the
    /// cursor is shown in.
    pub fn cursor_column(&self) -> (r: usize)
        requires
            self.wf(),
        ensures
            r == grapheme_clusters(self.text().take(self.cursor() as int)).len(),
    {
        let mut head: Vec<char> = Vec::new();
        let mut i: usize = 0;
        while i < self.cursor_position
            invariant
                i <= self.cursor_position <= self.input@.len(),
                head@ == self.input@.take(i as int),
            decreases self.cursor_position - i,
        {
            head.push(self.input[i]);
            assert(head@ =~= self.input@.take(i + 1));
            i += 1;
        }
        let clusters = clusters_of(string_of(&head).as_str());
        clusters.len()
    }

    /// Puts `ch` in at the cursor and moves the cursor right by one stop.
    pub fn append(&mut self, ch: char)
        requires
            old(self).wf(),
        ensures
            final(self).wf(),
            final(self).text() == old(self).text().insert(old(self).cursor() as int, ch),
            final(self).cursor() == next_stop(
                final(self).stops(),
                old(self).cursor(),
                final(self).text().len() as usize,
            ),
    {
        self.input.insert(self.cursor_position, ch);
        self.incr_cursor();
    }

    /// Moves the cursor left by one stop and takes out the character it then
    /// stands before. Does nothing where the cursor is at the beginning.
    pub fn backspace(&mut self)
        requires
            old(self).wf(),
        ensures
            final(self).wf(),
            old(self).cursor() == 0 ==> *final(self) == *old(self),
            old(self).cursor() > 0 ==> {
                &&& final(self).cursor() == previous_stop(old(self).stops(), old(self).cursor())
                &&& final(self).text() == old(self).text().remove(final(self).cursor() as int)
            },
    {
        if self.cursor_position > 0 {
            self.decr_cursor();
            self.input.remove(self.cursor_position);
        }
    }

    /// Empties the text and puts the cursor at the beginning.
    pub fn clear(&mut self)
        ensures
            final(self).wf(),
            final(self).text() == Seq::<char>::empty(),
            final(self).cursor() == 0,
    {
        self.input.clear();
        self.cursor_at_begin();
    }

    /// Moves the cursor right to the next stop, or to the end where there is none.
    pub fn incr_cursor(&mut self)
        requires
            old(self).wf(),
        ensures
            final(self).wf(),
            final(self).text() == old(self).text(),
            final(self).cursor() == next_stop(
                old(self).stops(),
                old(self).cursor(),
                old(self).text().len() as usize,
            ),
    {
        let stops = cursor_stops(&self.input);
        let end: usize = self.input.len();
        let ghost starts = stops@;
        let ghost cursor = self.cursor_position;
        proof {
            if exists|i: int| is_first_above(starts, cursor, i) {
                let i = choose|i: int| is_first_above(starts, cursor, i);
                assert(starts[i] <= end);
            }
        }
        self.cursor_position = stop_after(&stops, self.cursor_position, end);
    }

    /// Moves the cursor left to the stop before it, if there is one.
    pub fn decr_cursor(&mut self)
        requires
            old(self).wf(),
        ensures
            final(self).wf(),
            final(self).text() == old(self).text(),
            final(self).cursor() == previous_stop(old(self).stops(), old(self).cursor()),
            final(self).cursor() <= old(self).cursor(),
            old(self).cursor() > 0 ==> final(self).cursor() < old(self).text().len(),
    {
        let stops = cursor_stops(&self.input);
        let to = stop_before(&stops, self.cursor_position);
        self.cursor_position = to;
    }

    /// Puts the cursor behind the last character.
    pub fn cursor_at_end(&mut self)
        ensures
            final(self).wf(),
            final(self).text() == old(self).text(),
            final(self).cursor() == old(self).text().len(),
    {
        self.cursor_position = self.input.len();
    }

    /// Puts the cursor before the first character.
    pub fn cursor_at_begin(&mut self)
        ensures
            final(self).wf(),
            final(self).text() == old(self).text(),
            final(self).cursor() == 0,
    {
        self.cursor_position = 0;
    }
}

} // verus!

//! The text of a transcription: the segments that inference emitted, in
//! order, each followed by one space.

use vstd::prelude::*;

verus! {

/// A segment with the space that follows it.
pub open spec fn spaced(segment: Seq<char>) -> Seq<char> {
    segment.push(' ')
}

/// The text that the segments make up: every segment in order, each followed
/// by exactly one space, the last one too.
pub open spec fn transcript(segments: Seq<Seq<char>>) -> Seq<char> {
    segments.map_values(|segment: Seq<char>| spaced(segment)).flatten()
}

/// No segments make an empty text.
pub proof fn lemma_transcript_of_nothing()
    ensures
        transcript(Seq::empty()) == Seq::<char>::empty(),
{
    assert(Seq::<Seq<char>>::empty().map_values(|segment: Seq<char>| spaced(segment))
        =~= Seq::<Seq<char>>::empty());
}

/// The text starts with the first segment and its space, and goes on with the
/// text of the segments that follow.
pub proof fn lemma_transcript_unfolds(segments: Seq<Seq<char>>)
    requires
        segments.len() > 0,
    ensures
        transcript(segments) == spaced(segments[0]) + transcript(segments.drop_first()),
{
    let each = |segment: Seq<char>| spaced(segment);
    assert(segments.map_values(each).drop_first() =~= segments.drop_first().map_values(each));
}

/// One more segment adds its text and one space at the end.
pub proof fn lemma_transcript_grows(segments: Seq<Seq<char>>, segment: Seq<char>)
    ensures
        transcript(segments.push(segment)) == transcript(segments) + segment + seq![' '],
{
    let each = |segment: Seq<char>| spaced(segment);
    assert(segments.push(segment).map_values(each) =~= segments.map_values(each).push(
        spaced(segment),
    ));
    segments.map_values(each).lemma_flatten_push(spaced(segment));
    assert(transcript(segments) + spaced(segment) =~= transcript(segments) + segment + seq![' ']);
}

} // verus!

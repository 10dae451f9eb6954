//! Coordinates as they appear on the command line and in a request.

use crate::error::RouteError;
use crate::text::fields;
use vstd::prelude::*;

verus! {

/// A place on the map. Each coordinate is held as the decimal text of its
/// degrees, the form in which it enters a request.
#[derive(Debug, PartialEq, Eq)]
pub struct Position {
    pub longitude: String,
    pub latitude: String,
}

/// Whether a text is free of commas.
pub open spec fn comma_free(s: Seq<char>) -> bool {
    forall|i: int| 0 <= i < s.len() ==> s[i] != ','
}

impl Position {
    /// The position as a request writes it: longitude, a comma, latitude.
    pub open spec fn spec_text(&self) -> Seq<char> {
        self.longitude@ + seq![','] + self.latitude@
    }

    /// The position as a request writes it: longitude, a comma, latitude.
    pub fn text(&self) -> (out: String)
        ensures
            out@ == self.spec_text(),
    {
        let mut out = self.longitude.clone();
        out.append(",");
        out.append(self.latitude.as_str());
        proof {
            reveal_strlit(",");
            assert(","@ =~= seq![',']);
        }
        out
    }

    /// The position whose coordinates are the given fields: there must be
    /// exactly two, longitude first.
    pub fn from_fields(fields: &Vec<String>) -> (p: Option<Position>)
        ensures
            match p {
                Some(p) => fields@.len() == 2 && p.longitude@ == fields@[0]@ && p.latitude@
                    == fields@[1]@,
                None => fields@.len() != 2,
            },
    {
        if fields.len() == 2 {
            Some(Position { longitude: fields[0].clone(), latitude: fields[1].clone() })
        } else {
            None
        }
    }
}

/// The two ends of a route, from the fields of the origin and of the
/// destination. Both must have exactly two fields.
pub fn endpoints(origin: &Vec<String>, destination: &Vec<String>) -> (r: Result<
    (Position, Position),
    RouteError,
>)
    ensures
        match r {
            Ok((start, goal)) => {
                &&& origin@.len() == 2
                &&& destination@.len() == 2
                &&& start.longitude@ == origin@[0]@
                &&& start.latitude@ == origin@[1]@
                &&& goal.longitude@ == destination@[0]@
                &&& goal.latitude@ == destination@[1]@
            },
            Err(e) => e == RouteError::Endpoints && !(origin@.len() == 2 && destination@.len()
                == 2),
        },
{
    match (Position::from_fields(origin), Position::from_fields(destination)) {
        (Some(start), Some(goal)) => Ok((start, goal)),
        _ => Err(RouteError::Endpoints),
    }
}

/// A text without a comma is its own single field.
pub proof fn lemma_fields_of_comma_free(s: Seq<char>)
    requires
        comma_free(s),
    ensures
        fields(s) == seq![s],
    decreases s.len(),
{
    if s.len() > 0 {
        lemma_fields_of_comma_free(s.drop_last());
        assert(seq![s.drop_last()].update(0, s.drop_last().push(s.last())) =~= seq![s]) by {
            assert(s.drop_last().push(s.last()) =~= s);
        }
    } else {
        assert(s =~= Seq::<char>::empty());
    }
}

/// Appending a comma and a comma-free text to any text adds that text as one
/// more field.
pub proof fn lemma_fields_append(head: Seq<char>, last: Seq<char>)
    requires
        comma_free(last),
    ensures
        fields(head + seq![','] + last) == fields(head).push(last),
    decreases last.len(),
{
    let whole = head + seq![','] + last;
    if last.len() == 0 {
        assert(whole.drop_last() =~= head);
        assert(last =~= Seq::<char>::empty());
    } else {
        let shorter = last.drop_last();
        lemma_fields_append(head, shorter);
        assert(whole.drop_last() =~= head + seq![','] + shorter);
        assert(whole.last() == last.last());
        assert(shorter.push(last.last()) =~= last);
        let before = fields(head).push(shorter);
        assert(before.update(before.len() - 1, before.last().push(last.last())) =~= fields(
            head,
        ).push(last));
    }
}

/// Written out and cut at commas again, a position whose coordinates hold no
/// comma gives back exactly its two coordinates.
pub proof fn lemma_position_round_trip(p: Position)
    requires
        comma_free(p.longitude@),
        comma_free(p.latitude@),
    ensures
        fields(p.spec_text()) == seq![p.longitude@, p.latitude@],
{
    lemma_fields_of_comma_free(p.longitude@);
    lemma_fields_append(p.longitude@, p.latitude@);
    assert(seq![p.longitude@].push(p.latitude@) =~= seq![p.longitude@, p.latitude@]);
}

} // verus!

//! Measurement points for the time-series database, built field by field.

use vstd::prelude::*;

verus! {

/// A field value. `Ratio` stands for the floating-point number `numer / denom`;
/// the database client turns it into a float when the point is written.
#[derive(PartialEq, Eq, Structural, Clone, Copy, Debug)]
pub enum FieldValue {
    Integer(i64),
    Ratio { numer: u64, denom: u64 },
}

/// One measurement: a name, tags and fields in the order they were added, and
/// an optional timestamp in milliseconds since the epoch.
pub struct Point {
    pub measurement: String,
    pub tags: Vec<(String, String)>,
    pub fields: Vec<(String, FieldValue)>,
    pub timestamp_ms: Option<i64>,
}

pub struct PointView {
    pub measurement: Seq<char>,
    pub tags: Seq<(Seq<char>, Seq<char>)>,
    pub fields: Seq<(Seq<char>, FieldValue)>,
    pub timestamp_ms: Option<i64>,
}

impl PointView {
    pub open spec fn new(measurement: Seq<char>) -> PointView {
        PointView { measurement, tags: Seq::empty(), fields: Seq::empty(), timestamp_ms: None }
    }

    pub open spec fn tag(self, key: Seq<char>, value: Seq<char>) -> PointView {
        PointView { tags: self.tags.push((key, value)), ..self }
    }

    pub open spec fn field(self, key: Seq<char>, value: FieldValue) -> PointView {
        PointView { fields: self.fields.push((key, value)), ..self }
    }

    pub open spec fn timestamp(self, t: i64) -> PointView {
        PointView { timestamp_ms: Some(t), ..self }
    }
}

impl View for Point {
    type V = PointView;

    open spec fn view(&self) -> PointView {
        PointView {
            measurement: self.measurement@,
            tags: Seq::new(self.tags@.len(), |i: int| (self.tags@[i].0@, self.tags@[i].1@)),
            fields: Seq::new(self.fields@.len(), |i: int| (self.fields@[i].0@, self.fields@[i].1)),
            timestamp_ms: self.timestamp_ms,
        }
    }
}

impl Point {
    pub fn new(measurement: &str) -> (r: Point)
        ensures
            r@ == PointView::new(measurement@),
    {
        let r = Point {
            measurement: String::from_str(measurement),
            tags: Vec::new(),
            fields: Vec::new(),
            timestamp_ms: None,
        };
        assert(r@.tags =~= Seq::empty());
        assert(r@.fields =~= Seq::empty());
        r
    }

    pub fn tag(self, key: &str, value: String) -> (r: Point)
        ensures
            r@ == self@.tag(key@, value@),
    {
        let mut p = self;
        p.tags.push((String::from_str(key), value));
        assert(p@.tags =~= self@.tags.push((key@, value@)));
        p
    }

    pub fn field(self, key: &str, value: FieldValue) -> (r: Point)
        ensures
            r@ == self@.field(key@, value),
    {
        let mut p = self;
        p.fields.push((String::from_str(key), value));
        assert(p@.fields =~= self@.fields.push((key@, value)));
        p
    }

    pub fn timestamp(self, t: i64) -> (r: Point)
        ensures
            r@ == self@.timestamp(t),
    {
        let mut p = self;
        p.timestamp_ms = Some(t);
        assert(p@.tags =~= self@.tags);
        assert(p@.fields =~= self@.fields);
        p
    }
}

} // verus!

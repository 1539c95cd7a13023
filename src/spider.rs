//! Snapshots of uploaders polled from the REST API, and their points.

use vstd::prelude::*;
use crate::point::{FieldValue, Point, PointView};

verus! {

pub enum SpiderData {
    UploaderStat { video_views: u64, article_views: u64, likes: u64 },
    UserInfo { followers: u64 },
}

/// One polled snapshot of an uploader.
pub struct SpiderInfo {
    pub username: String,
    pub uid: u64,
    /// Poll time in milliseconds since the epoch.
    pub time_ms: i64,
    pub data: SpiderData,
}

impl SpiderInfo {
    pub open spec fn point_spec(self) -> PointView {
        let pt = PointView::new("bili-info"@).tag("uploader"@, self.username@).timestamp(
            self.time_ms,
        );
        match self.data {
            SpiderData::UploaderStat { video_views, article_views, likes } => pt.field(
                "video_views"@,
                FieldValue::Ratio { numer: video_views, denom: 1 },
            ).field("article_views"@, FieldValue::Ratio { numer: article_views, denom: 1 }).field(
                "likes"@,
                FieldValue::Ratio { numer: likes, denom: 1 },
            ),
            SpiderData::UserInfo { followers } => pt.field(
                "followers"@,
                FieldValue::Ratio { numer: followers, denom: 1 },
            ),
        }
    }

    pub fn into_point(self) -> (r: Point)
        ensures
            r@ == self.point_spec(),
    {
        let pt = Point::new("bili-info").tag("uploader", self.username).timestamp(self.time_ms);
        match self.data {
            SpiderData::UploaderStat { video_views, article_views, likes } => pt.field(
                "video_views",
                FieldValue::Ratio { numer: video_views, denom: 1 },
            ).field("article_views", FieldValue::Ratio { numer: article_views, denom: 1 }).field(
                "likes",
                FieldValue::Ratio { numer: likes, denom: 1 },
            ),
            SpiderData::UserInfo { followers } => pt.field(
                "followers",
                FieldValue::Ratio { numer: followers, denom: 1 },
            ),
        }
    }
}

} // verus!

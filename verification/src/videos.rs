//! Seeding the window-function experiment: videos with a creator and a
//! creation time, and views of those videos by users.
//!
//! The seeding program samples offsets into fixed lists of video ids and
//! user ids; this catalog turns the offsets into ids, remembers when each
//! video was created, and says from when a view of a video may be dated.
//! Ids are the 128-bit values of UUIDs; times are `Instant`s.

use std::collections::HashMap;
use vstd::prelude::*;
use crate::time::{
    clock_reading, creation_window, creation_window_spec, draw_between, drawable, drawn_between,
    law_windows_are_drawable, not_after, Instant, TimeWindow, WindowError,
};

verus! {

broadcast use vstd::std_specs::hash::group_hash_axioms;

/// A creator is looked up this far into the user list past the sampled offset.
pub const CREATOR_OFFSET: usize = 300;

/// Sampled video offsets are capped at this value.
pub const MAX_VIDEO_OFFSET: usize = 99;

/// Sampled viewer offsets are capped at this value.
pub const MAX_VIEWER_OFFSET: usize = 9999;

/// Why a seeding step could not go on.
#[derive(Clone, Copy, Debug, PartialEq, Eq, Structural)]
pub enum SeedError {
    /// The offset lies past the end of the user list.
    UnknownUser,
    /// The offset lies past the end of the video list.
    UnknownVideo,
    /// No creation time was recorded for the video.
    UnknownCreationTime,
    /// The window of creation times could not be computed.
    Window(WindowError),
}

impl SeedError {
    pub open spec fn message_spec(self) -> Seq<char> {
        match self {
            SeedError::UnknownUser => "Boom user id "@,
            SeedError::UnknownVideo => "Boom video id "@,
            SeedError::UnknownCreationTime => "unable to find video"@,
            SeedError::Window(e) => e.message_spec(),
        }
    }

    /// The message the error is reported with.
    pub fn message(&self) -> (m: String)
        ensures
            m@ == self.message_spec(),
    {
        match self {
            SeedError::UnknownUser => String::from_str("Boom user id "),
            SeedError::UnknownVideo => String::from_str("Boom video id "),
            SeedError::UnknownCreationTime => String::from_str("unable to find video"),
            SeedError::Window(e) => e.message(),
        }
    }
}

/// The element at `index`, or the error when the list is shorter.
pub open spec fn lookup(ids: Seq<u128>, index: int, missing: SeedError) -> Result<u128, SeedError> {
    if 0 <= index < ids.len() {
        Ok(ids[index])
    } else {
        Err(missing)
    }
}

/// The sampled offset, capped.
pub open spec fn capped(offset: usize, max: usize) -> usize {
    if offset > max {
        max
    } else {
        offset
    }
}

/// Caps a sampled offset.
pub fn cap_offset(offset: usize, max: usize) -> (c: usize)
    ensures
        c == capped(offset, max),
{
    if offset > max {
        max
    } else {
        offset
    }
}

/// A view to store: which video, which user, and the earliest time the view
/// may be dated at (the video's creation).
#[derive(Clone, Copy, Debug, PartialEq, Eq, Structural)]
pub struct ViewTarget {
    pub video_id: u128,
    pub viewer_id: u128,
    pub earliest: Instant,
}

/// The abstract state of a catalog.
pub struct CatalogView {
    pub videos: Seq<u128>,
    pub users: Seq<u128>,
    pub created: Map<u128, Instant>,
}

/// The id lists, and the creation time recorded for each video so far.
pub struct VideoCatalog {
    video_ids: Vec<u128>,
    user_ids: Vec<u128>,
    created_times: HashMap<u128, Instant>,
}

impl View for VideoCatalog {
    type V = CatalogView;

    closed spec fn view(&self) -> CatalogView {
        CatalogView {
            videos: self.video_ids@,
            users: self.user_ids@,
            created: self.created_times@,
        }
    }
}

/// Where a view of the video at `video_offset` by the user at `viewer_offset`
/// leads, both offsets capped first: the video is looked up, then the user,
/// then the video's creation time.
pub open spec fn view_target_spec(c: CatalogView, video_offset: usize, viewer_offset: usize) -> Result<
    ViewTarget,
    SeedError,
> {
    let v = capped(video_offset, MAX_VIDEO_OFFSET);
    let u = capped(viewer_offset, MAX_VIEWER_OFFSET);
    match lookup(c.videos, v as int, SeedError::UnknownVideo) {
        Err(e) => Err(e),
        Ok(video_id) => match lookup(c.users, u as int, SeedError::UnknownUser) {
            Err(e) => Err(e),
            Ok(viewer_id) => if c.created.contains_key(video_id) {
                Ok(ViewTarget { video_id, viewer_id, earliest: c.created[video_id] })
            } else {
                Err(SeedError::UnknownCreationTime)
            },
        },
    }
}

/// A video to store: its id, its creator, and when it was created.
#[derive(Clone, Copy, Debug, PartialEq, Eq, Structural)]
pub struct VideoRow {
    pub video_id: u128,
    pub creator_id: u128,
    pub created_at: Instant,
}

/// What seeding the `n`-th video, with a sampled creator offset and the
/// clock reading `now`, rests on: the creator is looked up first, then the
/// video, then the window of creation times.
pub open spec fn video_seed_spec(c: CatalogView, n: usize, creator_offset: usize, now: Instant) -> Result<
    (u128, u128, TimeWindow),
    SeedError,
> {
    match lookup(c.users, creator_offset + CREATOR_OFFSET, SeedError::UnknownUser) {
        Err(e) => Err(e),
        Ok(creator_id) => match lookup(c.videos, n as int, SeedError::UnknownVideo) {
            Err(e) => Err(e),
            Ok(video_id) => match creation_window_spec(now) {
                Err(e) => Err(SeedError::Window(e)),
                Ok(w) => Ok((video_id, creator_id, w)),
            },
        },
    }
}

impl VideoCatalog {
    /// A catalog over the given ids, with no creation time recorded yet.
    pub fn new(video_ids: Vec<u128>, user_ids: Vec<u128>) -> (c: VideoCatalog)
        ensures
            c@.videos == video_ids@,
            c@.users == user_ids@,
            c@.created == Map::<u128, Instant>::empty(),
    {
        VideoCatalog { video_ids, user_ids, created_times: HashMap::new() }
    }

    /// The `n`-th video.
    pub fn video(&self, n: usize) -> (r: Result<u128, SeedError>)
        ensures
            r == lookup(self@.videos, n as int, SeedError::UnknownVideo),
    {
        if n < self.video_ids.len() {
            Ok(self.video_ids[n])
        } else {
            Err(SeedError::UnknownVideo)
        }
    }

    /// The creator of a video: the user `CREATOR_OFFSET` places past the
    /// sampled offset.
    pub fn creator(&self, offset: usize) -> (r: Result<u128, SeedError>)
        requires
            offset + CREATOR_OFFSET <= usize::MAX,
        ensures
            r == lookup(self@.users, offset + CREATOR_OFFSET, SeedError::UnknownUser),
    {
        let index = offset + CREATOR_OFFSET;
        if index < self.user_ids.len() {
            Ok(self.user_ids[index])
        } else {
            Err(SeedError::UnknownUser)
        }
    }

    /// Records when a video was created; a later record for the same video
    /// replaces the earlier one.
    pub fn record_created(&mut self, video_id: u128, created_at: Instant)
        ensures
            final(self)@.videos == old(self)@.videos,
            final(self)@.users == old(self)@.users,
            final(self)@.created == old(self)@.created.insert(video_id, created_at),
    {
        self.created_times.insert(video_id, created_at);
    }

    /// The creation time recorded for a video, if any.
    pub fn created_at(&self, video_id: u128) -> (t: Option<Instant>)
        ensures
            self@.created.contains_key(video_id) ==> t == Some(self@.created[video_id]),
            !self@.created.contains_key(video_id) ==> t is None,
    {
        match self.created_times.get(&video_id) {
            Some(t) => Some(*t),
            None => None,
        }
    }

    /// Seeds the `n`-th video: its creator, sampled at `creator_offset`, and
    /// a creation time drawn at random from the creation window of `now`,
    /// which is recorded for the video. On an error nothing is recorded.
    pub fn seed_video(&mut self, n: usize, creator_offset: usize, now: Instant) -> (r: Result<
        VideoRow,
        SeedError,
    >)
        requires
            creator_offset + CREATOR_OFFSET <= usize::MAX,
            clock_reading(now),
        ensures
            final(self)@.videos == old(self)@.videos,
            final(self)@.users == old(self)@.users,
            match video_seed_spec(old(self)@, n, creator_offset, now) {
                Err(e) => r == Err::<VideoRow, SeedError>(e) && final(self)@.created == old(
                    self,
                )@.created,
                Ok((video_id, creator_id, w)) => r matches Ok(row) && row.video_id == video_id
                    && row.creator_id == creator_id && drawn_between(w.start, w.end, row.created_at)
                    && final(self)@.created == old(self)@.created.insert(video_id, row.created_at),
            },
    {
        let creator_id = match self.creator(creator_offset) {
            Ok(id) => id,
            Err(e) => return Err(e),
        };
        let video_id = match self.video(n) {
            Ok(id) => id,
            Err(e) => return Err(e),
        };
        let window = match creation_window(now) {
            Ok(w) => w,
            Err(e) => return Err(SeedError::Window(e)),
        };
        proof {
            law_windows_are_drawable(now);
        }
        let created_at = draw_between(window.start, window.end);
        self.record_created(video_id, created_at);
        Ok(VideoRow { video_id, creator_id, created_at })
    }

    /// Where a view with the sampled offsets leads; see `view_target_spec`.
    pub fn view_target(&self, video_offset: usize, viewer_offset: usize) -> (r: Result<
        ViewTarget,
        SeedError,
    >)
        ensures
            r == view_target_spec(self@, video_offset, viewer_offset),
    {
        let v = cap_offset(video_offset, MAX_VIDEO_OFFSET);
        let video_id = match self.video(v) {
            Ok(id) => id,
            Err(e) => return Err(e),
        };
        let u = cap_offset(viewer_offset, MAX_VIEWER_OFFSET);
        let viewer_id = if u < self.user_ids.len() {
            self.user_ids[u]
        } else {
            return Err(SeedError::UnknownUser);
        };
        match self.created_at(video_id) {
            Some(earliest) => Ok(ViewTarget { video_id, viewer_id, earliest }),
            None => Err(SeedError::UnknownCreationTime),
        }
    }
}

/// A view of a video is dated from the creation time last recorded for that
/// video: after `record_created(v, t)`, every view target that picks `v`
/// starts at `t`, and targets that pick other videos are unchanged.
pub proof fn law_view_dated_from_recorded_creation(
    before: CatalogView,
    video_id: u128,
    created_at: Instant,
    video_offset: usize,
    viewer_offset: usize,
)
    ensures
        ({
            let after = CatalogView {
                videos: before.videos,
                users: before.users,
                created: before.created.insert(video_id, created_at),
            };
            let r = view_target_spec(after, video_offset, viewer_offset);
            &&& (r is Ok && r->Ok_0.video_id == video_id) ==> r->Ok_0.earliest == created_at
            &&& lookup(before.videos, capped(video_offset, MAX_VIDEO_OFFSET) as int, SeedError::UnknownVideo)
                != Ok::<u128, SeedError>(video_id) ==> r == view_target_spec(before, video_offset, viewer_offset)
            &&& lookup(before.videos, capped(video_offset, MAX_VIDEO_OFFSET) as int, SeedError::UnknownVideo)
                == Ok::<u128, SeedError>(video_id) && lookup(before.users, capped(viewer_offset, MAX_VIEWER_OFFSET) as int, SeedError::UnknownUser) is Ok
                ==> r is Ok
        }),
{
}

/// Draws when a view was played: a random time from the video's creation to
/// `now`.
pub fn draw_play_time(target: ViewTarget, now: Instant) -> (played_at: Instant)
    requires
        drawable(target.earliest, now),
    ensures
        drawn_between(target.earliest, now, played_at),
{
    draw_between(target.earliest, now)
}

/// No view is older than its video: a view time drawn for a target is not
/// before the creation time recorded for the target's video, and lies before
/// the clock reading it was drawn up to.
pub proof fn law_view_not_older_than_its_video(
    c: CatalogView,
    video_offset: usize,
    viewer_offset: usize,
    now: Instant,
    played_at: Instant,
)
    requires
        view_target_spec(c, video_offset, viewer_offset) is Ok,
        drawn_between(
            view_target_spec(c, video_offset, viewer_offset)->Ok_0.earliest,
            now,
            played_at,
        ),
    ensures
        ({
            let t = view_target_spec(c, video_offset, viewer_offset)->Ok_0;
            &&& c.created.contains_key(t.video_id)
            &&& not_after(c.created[t.video_id], played_at)
            &&& not_after(played_at, now) && played_at != now
        }),
{
}

/// A view goes to the video at the sampled video offset and to the user at
/// the sampled viewer offset, each offset lowered only when it lies past the
/// last id the seeding generates (`MAX_VIDEO_OFFSET`, `MAX_VIEWER_OFFSET`),
/// and it is dated from the creation time recorded for that video. The video
/// is looked up before the user, and both before the creation time.
pub proof fn law_view_target_picks_the_sampled_ids(
    c: CatalogView,
    video_offset: usize,
    viewer_offset: usize,
)
    ensures
        ({
            let vi: int = if video_offset <= MAX_VIDEO_OFFSET {
                video_offset as int
            } else {
                MAX_VIDEO_OFFSET as int
            };
            let ui: int = if viewer_offset <= MAX_VIEWER_OFFSET {
                viewer_offset as int
            } else {
                MAX_VIEWER_OFFSET as int
            };
            let r = view_target_spec(c, video_offset, viewer_offset);
            &&& c.videos.len() <= vi ==> r == Err::<ViewTarget, SeedError>(SeedError::UnknownVideo)
            &&& vi < c.videos.len() && c.users.len() <= ui ==> r == Err::<ViewTarget, SeedError>(
                SeedError::UnknownUser,
            )
            &&& vi < c.videos.len() && ui < c.users.len() && !c.created.contains_key(c.videos[vi])
                ==> r == Err::<ViewTarget, SeedError>(SeedError::UnknownCreationTime)
            &&& vi < c.videos.len() && ui < c.users.len() && c.created.contains_key(c.videos[vi])
                ==> r == Ok::<ViewTarget, SeedError>(
                ViewTarget {
                    video_id: c.videos[vi],
                    viewer_id: c.users[ui],
                    earliest: c.created[c.videos[vi]],
                },
            )
        }),
{
}

/// A video's creator is the user `CREATOR_OFFSET` places past the sampled
/// offset, and the `n`-th video is the `n`-th id; past the end of a list the
/// lookup fails with that list's error.
pub proof fn law_lookups_index_the_lists(c: CatalogView, n: usize, creator_offset: usize)
    ensures
        n < c.videos.len() ==> lookup(c.videos, n as int, SeedError::UnknownVideo) == Ok::<
            u128,
            SeedError,
        >(c.videos[n as int]),
        n >= c.videos.len() ==> lookup(c.videos, n as int, SeedError::UnknownVideo) == Err::<
            u128,
            SeedError,
        >(SeedError::UnknownVideo),
        creator_offset + 300 < c.users.len() ==> lookup(
            c.users,
            creator_offset + CREATOR_OFFSET,
            SeedError::UnknownUser,
        ) == Ok::<u128, SeedError>(c.users[creator_offset + 300]),
        creator_offset + 300 >= c.users.len() ==> lookup(
            c.users,
            creator_offset + CREATOR_OFFSET,
            SeedError::UnknownUser,
        ) == Err::<u128, SeedError>(SeedError::UnknownUser),
{
}

/// Seeding the `n`-th video gives the `n`-th video id and, as its creator,
/// the user `CREATOR_OFFSET` places past the sampled offset, to be dated in
/// the creation window of `now`; a missing creator is reported before a
/// missing video, and both before a window that cannot be computed.
pub proof fn law_seeded_video_is_the_nth_with_its_creator(
    c: CatalogView,
    n: usize,
    creator_offset: usize,
    now: Instant,
)
    ensures
        ({
            let r = video_seed_spec(c, n, creator_offset, now);
            let ci: int = creator_offset + 300;
            &&& c.users.len() <= ci ==> r == Err::<(u128, u128, TimeWindow), SeedError>(
                SeedError::UnknownUser,
            )
            &&& ci < c.users.len() && c.videos.len() <= n ==> r == Err::<
                (u128, u128, TimeWindow),
                SeedError,
            >(SeedError::UnknownVideo)
            &&& ci < c.users.len() && n < c.videos.len() ==> match creation_window_spec(now) {
                Ok(w) => r == Ok::<(u128, u128, TimeWindow), SeedError>(
                    (c.videos[n as int], c.users[ci], w),
                ),
                Err(e) => r == Err::<(u128, u128, TimeWindow), SeedError>(SeedError::Window(e)),
            }
        }),
{
}

/// Capped offsets never exceed their cap, and offsets within it are kept.
pub proof fn law_offsets_capped(offset: usize, max: usize)
    ensures
        capped(offset, max) <= max,
        offset <= max ==> capped(offset, max) == offset,
        capped(offset, max) <= offset,
{
}

} // verus!

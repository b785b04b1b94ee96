//! The table of contents a probe reports: per-track sector boundaries and
//! audio attributes, with the well-formedness the engine checks at open.

use vstd::prelude::*;

verus! {

/// The largest absolute sector address the model admits; keeps all sector
/// arithmetic far away from any machine limit.
pub const MAX_SECTOR: u64 = 0x7fffffff;

/// The largest track count a disc may report.
pub const MAX_TRACKS: usize = 99;

/// The mathematical model of one track of the table of contents.
pub ghost struct TrackModel {
    /// First absolute sector of the track.
    pub first: int,
    /// Last absolute sector of the track.
    pub last: int,
    /// Channel count of the track's audio.
    pub channels: int,
    /// Whether the track holds audio.
    pub audio: bool,
    /// Whether digital copy is permitted.
    pub copy_permitted: bool,
    /// Whether the audio was mastered with pre-emphasis.
    pub preemphasis: bool,
}

/// One track of the table of contents, as the probe reports it.
#[derive(Clone, Copy, Debug, PartialEq, Eq, Structural)]
pub struct TrackEntry {
    /// First absolute sector of the track.
    pub first_sector: u64,
    /// Last absolute sector of the track.
    pub last_sector: u64,
    /// Channel count of the track's audio.
    pub channels: u32,
    /// Whether the track holds audio.
    pub audio: bool,
    /// Whether digital copy is permitted.
    pub copy_permitted: bool,
    /// Whether the audio was mastered with pre-emphasis.
    pub preemphasis: bool,
}

impl View for TrackEntry {
    type V = TrackModel;

    open spec fn view(&self) -> TrackModel {
        TrackModel {
            first: self.first_sector as int,
            last: self.last_sector as int,
            channels: self.channels as int,
            audio: self.audio,
            copy_permitted: self.copy_permitted,
            preemphasis: self.preemphasis,
        }
    }
}

/// The table of contents of one disc, tracks in disc order.
#[derive(Debug)]
pub struct DiscToc {
    /// The tracks, in disc order; index 0 is track number 1.
    pub tracks: Vec<TrackEntry>,
}

impl View for DiscToc {
    type V = Seq<TrackModel>;

    open spec fn view(&self) -> Seq<TrackModel> {
        self.tracks@.map_values(|t: TrackEntry| t@)
    }
}

/// Whether every track has ordered, bounded sector addresses and the tracks
/// cover a contiguous span of the disc in order.
pub open spec fn toc_sectors_wf(tracks: Seq<TrackModel>) -> bool {
    &&& forall|i: int|
        0 <= i < tracks.len() ==> (#[trigger] tracks[i]).first <= tracks[i].last <= MAX_SECTOR as int
    &&& forall|i: int|
        1 <= i < tracks.len() ==> (#[trigger] tracks[i]).first == tracks[i - 1].last + 1
}

/// A well-formed table of contents: a legal track count and a contiguous,
/// bounded sector layout.
pub open spec fn toc_wf(tracks: Seq<TrackModel>) -> bool {
    &&& 1 <= tracks.len() <= MAX_TRACKS as int
    &&& toc_sectors_wf(tracks)
}

/// Whether at least one track of the table holds audio.
pub open spec fn has_audio_track(tracks: Seq<TrackModel>) -> bool {
    exists|i: int| 0 <= i < tracks.len() && (#[trigger] tracks[i]).audio
}

/// First absolute sector of the disc.
pub open spec fn disc_first(tracks: Seq<TrackModel>) -> int {
    tracks[0].first
}

/// Last absolute sector of the disc.
pub open spec fn disc_last(tracks: Seq<TrackModel>) -> int {
    tracks[tracks.len() - 1].last
}

/// How many sectors track number `t` (1-based) spans.
pub open spec fn track_sector_count(tracks: Seq<TrackModel>, t: int) -> int {
    tracks[t - 1].last - tracks[t - 1].first + 1
}

/// On a well-formed table the tracks' sector spans ascend: an earlier
/// track's last sector lies before a later track's last sector, and
/// likewise for first sectors.
pub proof fn lemma_tracks_ascend(tracks: Seq<TrackModel>, i: int, j: int)
    requires
        toc_sectors_wf(tracks),
        0 <= i <= j < tracks.len(),
    ensures
        tracks[i].last <= tracks[j].last,
        tracks[i].first <= tracks[j].first,
    decreases j - i,
{
    if i < j {
        lemma_tracks_ascend(tracks, i, j - 1);
    }
}

/// Law: every sector of a valid track lies within the disc's sector span.
/// In particular a track spans `last - first + 1` sectors and each of them
/// is an addressable disc sector.
pub proof fn lemma_track_within_disc(tracks: Seq<TrackModel>, t: int)
    requires
        toc_wf(tracks),
        1 <= t <= tracks.len(),
    ensures
        disc_first(tracks) <= tracks[t - 1].first,
        tracks[t - 1].last <= disc_last(tracks),
        track_sector_count(tracks, t) == tracks[t - 1].last - tracks[t - 1].first + 1,
{
    lemma_tracks_ascend(tracks, 0, t - 1);
    lemma_tracks_ascend(tracks, t - 1, tracks.len() - 1);
}

impl DiscToc {
    /// An empty table, to be grown with [`DiscToc::push_track`].
    pub fn new() -> (r: DiscToc)
        ensures
            r@ =~= Seq::<TrackModel>::empty(),
    {
        DiscToc { tracks: Vec::new() }
    }

    /// Appends one track at the end of the table.
    pub fn push_track(&mut self, track: TrackEntry)
        ensures
            final(self)@ =~= old(self)@.push(track@),
    {
        self.tracks.push(track);
    }

    /// How many tracks the table lists.
    pub fn len(&self) -> (r: usize)
        ensures
            r == self@.len(),
    {
        self.tracks.len()
    }

    /// Whether the sector layout is well formed: ordered, bounded addresses
    /// and contiguous tracks.
    pub fn sectors_wf(&self) -> (r: bool)
        ensures
            r == toc_sectors_wf(self@),
    {
        let n = self.tracks.len();
        let mut i: usize = 0;
        while i < n
            invariant
                n == self@.len(),
                0 <= i <= n,
                forall|k: int|
                    0 <= k < i ==> (#[trigger] self@[k]).first <= self@[k].last <= MAX_SECTOR as int,
                forall|k: int| 1 <= k < i ==> (#[trigger] self@[k]).first == self@[k - 1].last + 1,
            decreases n - i,
        {
            let t = self.tracks[i];
            proof {
                assert(self@[i as int] == self.tracks@[i as int]@);
            }
            if !(t.first_sector <= t.last_sector && t.last_sector <= MAX_SECTOR) {
                return false;
            }
            if i >= 1 {
                let prev = self.tracks[i - 1];
                proof {
                    assert(self@[i as int - 1] == self.tracks@[i as int - 1]@);
                }
                if !(t.first_sector == prev.last_sector + 1) {
                    return false;
                }
            }
            i += 1;
        }
        true
    }

    /// Index of the track that contains the given absolute sector, on a
    /// well-formed table whose span covers it.
    pub fn sector_search(&self, sector: u64) -> (r: usize)
        requires
            toc_wf(self@),
            disc_first(self@) <= sector as int <= disc_last(self@),
        ensures
            r < self@.len(),
            self@[r as int].first <= sector as int <= self@[r as int].last,
    {
        let n = self.tracks.len();
        let mut i: usize = 0;
        while i + 1 < n
            invariant
                toc_wf(self@),
                n == self@.len(),
                n == self.tracks@.len(),
                0 <= i < n,
                self@[i as int].first <= sector as int,
                sector as int <= disc_last(self@),
            decreases n - i,
        {
            proof {
                assert(self@[i as int] == self.tracks@[i as int]@);
                assert(self@[i as int + 1] == self.tracks@[i as int + 1]@);
            }
            if sector <= self.tracks[i].last_sector {
                return i;
            }
            i += 1;
        }
        proof {
            assert(self@[i as int] == self.tracks@[i as int]@);
        }
        i
    }

    /// Whether at least one track holds audio.
    pub fn has_audio(&self) -> (r: bool)
        ensures
            r == has_audio_track(self@),
    {
        let n = self.tracks.len();
        let mut i: usize = 0;
        while i < n
            invariant
                n == self@.len(),
                0 <= i <= n,
                forall|k: int| 0 <= k < i ==> !(#[trigger] self@[k]).audio,
            decreases n - i,
        {
            proof {
                assert(self@[i as int] == self.tracks@[i as int]@);
            }
            if self.tracks[i].audio {
                return true;
            }
            i += 1;
        }
        false
    }
}

} // verus!

//! The index builder: materialises the upstream playlist dataset into a
//! freshly created index, once per process lifetime.
//!
//! The dataset is a JSON document of named groups, each an ordered list of
//! (locator, title) pairs. Fetching it is the caller's affair; this module
//! decodes the fetched bytes and proves that the built index holds exactly
//! one entry per (group, locator, title) triple, in order.

use crate::index::Entry;
use crate::index::EntryView;
use crate::index::Index;
use crate::index::index_entries;
use crate::payload::json_as_array;
use crate::payload::json_field;
use crate::payload::json_items;
use crate::payload::json_string;
use crate::payload::parsed_json;
use crate::payload::json_as_string;
use crate::payload::json_get;
use crate::payload::json_parse;
use crate::IndexBuildFailure;
use vstd::prelude::*;

verus! {

/// One video of a group: an opaque reference and a searchable title.
#[derive(Debug, PartialEq, Eq, Clone)]
pub struct VideoItem {
    pub locator: String,
    pub title: String,
}

/// The mathematical image of a `VideoItem`.
pub ghost struct VideoItemView {
    pub locator: Seq<char>,
    pub title: Seq<char>,
}

impl View for VideoItem {
    type V = VideoItemView;

    open spec fn view(&self) -> VideoItemView {
        VideoItemView { locator: self.locator@, title: self.title@ }
    }
}

/// One named group of the upstream dataset.
#[derive(Debug, PartialEq, Eq, Clone)]
pub struct Group {
    pub name: String,
    pub videos: Vec<VideoItem>,
}

/// The mathematical image of a `Group`.
pub ghost struct GroupView {
    pub name: Seq<char>,
    pub videos: Seq<VideoItemView>,
}

impl View for Group {
    type V = GroupView;

    open spec fn view(&self) -> GroupView {
        GroupView { name: self.name@, videos: self.videos@.map_values(|v: VideoItem| v@) }
    }
}

/// The images of a sequence of groups, in order.
pub open spec fn groups_view(gs: Seq<Group>) -> Seq<GroupView> {
    gs.map_values(|g: Group| g@)
}

/// The entries one group contributes to the index: one per video, carrying
/// the group's name as the collection.
pub open spec fn group_entries(g: GroupView) -> Seq<EntryView> {
    g.videos.map_values(
        |v: VideoItemView| EntryView { collection: g.name, locator: v.locator, title: v.title },
    )
}

/// The entries a whole dataset contributes, group by group, in order.
pub open spec fn groups_entries(gs: Seq<GroupView>) -> Seq<EntryView>
    decreases gs.len(),
{
    if gs.len() == 0 {
        Seq::empty()
    } else {
        group_entries(gs[0]) + groups_entries(gs.drop_first())
    }
}

proof fn lemma_groups_entries_push(s: Seq<GroupView>, g: GroupView)
    ensures
        groups_entries(s.push(g)) == groups_entries(s) + group_entries(g),
    decreases s.len(),
{
    if s.len() == 0 {
        assert(s.push(g)[0] == g);
        assert(s.push(g).drop_first() =~= Seq::<GroupView>::empty());
        assert(groups_entries(s.push(g)) == group_entries(g) + groups_entries(
            Seq::<GroupView>::empty(),
        ));
        assert(groups_entries(s.push(g)) =~= groups_entries(s) + group_entries(g));
    } else {
        assert(s.push(g)[0] == s[0]);
        assert(s.push(g).drop_first() =~= s.drop_first().push(g));
        lemma_groups_entries_push(s.drop_first(), g);
        assert(groups_entries(s.push(g)) == group_entries(s[0]) + (groups_entries(s.drop_first())
            + group_entries(g)));
        assert(groups_entries(s.push(g)) =~= groups_entries(s) + group_entries(g));
    }
}

/// Builds a fresh index from the decoded dataset.
///
/// On success the index holds exactly one entry per (group, locator,
/// title) triple, in dataset order. Any storage failure aborts the build:
/// there is no partial index.
pub fn build_index(groups: &Vec<Group>) -> (r: Result<Index, IndexBuildFailure>)
    ensures
        r matches Ok(i) ==> index_entries(i) == groups_entries(groups_view(groups@)),
{
    let mut idx = match Index::new() {
        Ok(i) => i,
        Err(e) => {
            return Err(e);
        },
    };
    let mut i: usize = 0;
    while i < groups.len()
        invariant
            i <= groups@.len(),
            index_entries(idx) == groups_entries(groups_view(groups@).take(i as int)),
        decreases groups@.len() - i,
    {
        let g = &groups[i];
        let mut j: usize = 0;
        while j < g.videos.len()
            invariant
                j <= g.videos@.len(),
                i < groups@.len(),
                *g == groups@[i as int],
                index_entries(idx) == groups_entries(groups_view(groups@).take(i as int))
                    + group_entries(g@).take(j as int),
            decreases g.videos@.len() - j,
        {
            let v = &g.videos[j];
            let entry = Entry {
                collection: g.name.clone(),
                locator: v.locator.clone(),
                title: v.title.clone(),
            };
            proof {
                assert(entry@ == group_entries(g@)[j as int]);
            }
            match idx.insert(&entry) {
                Ok(u) => u,
                Err(e) => {
                    return Err(e);
                },
            };
            proof {
                assert(group_entries(g@).take(j as int).push(group_entries(g@)[j as int])
                    =~= group_entries(g@).take(j + 1 as int));
                assert(index_entries(idx) =~= groups_entries(groups_view(groups@).take(i as int))
                    + group_entries(g@).take(j + 1 as int));
            }
            j = j + 1;
        }
        proof {
            assert(group_entries(g@).take(j as int) =~= group_entries(g@));
            assert(groups_view(groups@).take(i + 1 as int) =~= groups_view(groups@).take(
                i as int,
            ).push(g@));
            lemma_groups_entries_push(groups_view(groups@).take(i as int), g@);
            assert(index_entries(idx) == groups_entries(groups_view(groups@).take(i + 1 as int)));
        }
        i = i + 1;
    }
    proof {
        assert(groups_view(groups@).take(groups@.len() as int) =~= groups_view(groups@));
    }
    Ok(idx)
}

/// What decoding one video object returns, over the parse names: its
/// locator (`url`) and title, or `None` when either member is absent or
/// no string.
pub open spec fn decoded_video(item: serde_json::Value) -> Option<VideoItemView> {
    match json_field(item, "url"@) {
        None => None,
        Some(url_field) => match json_string(url_field) {
            None => None,
            Some(locator) => match json_field(item, "title"@) {
                None => None,
                Some(title_field) => match json_string(title_field) {
                    None => None,
                    Some(title) => Some(VideoItemView { locator, title }),
                },
            },
        },
    }
}

/// Whether every element of a videos array decodes as a video.
pub open spec fn all_videos_valid(items: Seq<serde_json::Value>) -> bool {
    forall|k: int| 0 <= k < items.len() ==> decoded_video(#[trigger] items[k]) is Some
}

/// What decoding one group object returns, over the parse names: its
/// string `playlist_name` and its decoded `videos`, or `None` when the
/// object departs from that schema.
pub open spec fn decoded_group(item: serde_json::Value) -> Option<GroupView> {
    match json_field(item, "playlist_name"@) {
        None => None,
        Some(name_field) => match json_string(name_field) {
            None => None,
            Some(name) => match json_field(item, "videos"@) {
                None => None,
                Some(videos_field) => match json_items(videos_field) {
                    None => None,
                    Some(vs) => if all_videos_valid(vs) {
                        Some(
                            GroupView {
                                name,
                                videos: Seq::new(vs.len(), |k: int| decoded_video(vs[k]).unwrap()),
                            },
                        )
                    } else {
                        None
                    },
                },
            },
        },
    }
}

/// Whether every element of the playlists array decodes as a group.
pub open spec fn all_groups_valid(items: Seq<serde_json::Value>) -> bool {
    forall|k: int| 0 <= k < items.len() ==> decoded_group(#[trigger] items[k]) is Some
}

/// What decoding the whole dataset returns, over the parse names: the
/// groups of its `playlists` array in order, or `None` when the document
/// departs from the schema anywhere.
pub open spec fn decoded_groups(body: Seq<u8>) -> Option<Seq<GroupView>> {
    match parsed_json(body) {
        None => None,
        Some(doc) => match json_field(doc, "playlists"@) {
            None => None,
            Some(playlists_field) => match json_items(playlists_field) {
                None => None,
                Some(ps) => if all_groups_valid(ps) {
                    Some(Seq::new(ps.len(), |k: int| decoded_group(ps[k]).unwrap()))
                } else {
                    None
                },
            },
        },
    }
}

/// Decodes the upstream dataset: `{"playlists": [{"playlist_name": …,
/// "videos": [{"url": …, "title": …}, …]}, …]}` — exactly as
/// `decoded_groups` says.
///
/// Any departure from that schema fails the build; there is no degraded
/// dataset.
#[verifier::loop_isolation(false)]
pub fn decode_groups(bytes: &Vec<u8>) -> (r: Result<Vec<Group>, IndexBuildFailure>)
    ensures
        match decoded_groups(bytes@) {
            Some(gs) => (r matches Ok(v) && groups_view(v@) == gs),
            None => r is Err,
        },
{
    let doc = match json_parse(bytes.as_slice()) {
        Some(v) => v,
        None => {
            return Err(IndexBuildFailure);
        },
    };
    let playlists_field = match json_get(&doc, "playlists") {
        Some(v) => v,
        None => {
            return Err(IndexBuildFailure);
        },
    };
    let playlists = match json_as_array(playlists_field) {
        Some(a) => a,
        None => {
            return Err(IndexBuildFailure);
        },
    };
    let mut groups: Vec<Group> = Vec::new();
    let mut i: usize = 0;
    while i < playlists.len()
        invariant
            i <= playlists@.len(),
            groups@.len() == i,
            forall|k: int|
                0 <= k < i ==> decoded_group(#[trigger] playlists@[k]) == Some(groups@[k]@),
        decreases playlists@.len() - i,
    {
        let name = match json_get(&playlists[i], "playlist_name") {
            Some(v) => match json_as_string(v) {
                Some(s) => s,
                None => {
                    proof {
                        assert(decoded_group(playlists@[i as int]) is None);
                    }
                    return Err(IndexBuildFailure);
                },
            },
            None => {
                proof {
                    assert(decoded_group(playlists@[i as int]) is None);
                }
                return Err(IndexBuildFailure);
            },
        };
        let videos_field = match json_get(&playlists[i], "videos") {
            Some(v) => v,
            None => {
                proof {
                    assert(decoded_group(playlists@[i as int]) is None);
                }
                return Err(IndexBuildFailure);
            },
        };
        let videos = match json_as_array(videos_field) {
            Some(a) => a,
            None => {
                proof {
                    assert(decoded_group(playlists@[i as int]) is None);
                }
                return Err(IndexBuildFailure);
            },
        };
        let mut items: Vec<VideoItem> = Vec::new();
        let mut j: usize = 0;
        while j < videos.len()
            invariant
                j <= videos@.len(),
                items@.len() == j,
                forall|k: int|
                    0 <= k < j ==> decoded_video(#[trigger] videos@[k]) == Some(items@[k]@),
            decreases videos@.len() - j,
        {
            let locator = match json_get(&videos[j], "url") {
                Some(v) => match json_as_string(v) {
                    Some(s) => s,
                    None => {
                        proof {
                            assert(decoded_video(videos@[j as int]) is None);
                            assert(decoded_group(playlists@[i as int]) is None);
                        }
                        return Err(IndexBuildFailure);
                    },
                },
                None => {
                    proof {
                        assert(decoded_video(videos@[j as int]) is None);
                        assert(decoded_group(playlists@[i as int]) is None);
                    }
                    return Err(IndexBuildFailure);
                },
            };
            let title = match json_get(&videos[j], "title") {
                Some(v) => match json_as_string(v) {
                    Some(s) => s,
                    None => {
                        proof {
                            assert(decoded_video(videos@[j as int]) is None);
                            assert(decoded_group(playlists@[i as int]) is None);
                        }
                        return Err(IndexBuildFailure);
                    },
                },
                None => {
                    proof {
                        assert(decoded_video(videos@[j as int]) is None);
                        assert(decoded_group(playlists@[i as int]) is None);
                    }
                    return Err(IndexBuildFailure);
                },
            };
            items.push(VideoItem { locator, title });
            j = j + 1;
        }
        let group = Group { name, videos: items };
        proof {
            assert(group@.videos =~= Seq::new(
                videos@.len(),
                |k: int| decoded_video(videos@[k]).unwrap(),
            ));
            assert(decoded_group(playlists@[i as int]) == Some(group@));
        }
        groups.push(group);
        i = i + 1;
    }
    proof {
        assert(groups_view(groups@) =~= Some(
            Seq::new(playlists@.len(), |k: int| decoded_group(playlists@[k]).unwrap()),
        ).unwrap());
    }
    Ok(groups)
}

} // verus!

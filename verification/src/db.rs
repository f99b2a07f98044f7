//! The clip store: the clips a user has registered, in the order they were
//! created, and the operations that create, change and delete them.
//!
//! Reading and writing the persisted document is left to the caller; the
//! store here is the in-memory snapshot that one request works on.

use vstd::prelude::*;

verus! {

/// What a clip's content is: a line of text, a block of text, or the path of
/// an image file.
#[derive(Clone, Copy, Debug, PartialEq, Eq, Structural)]
pub enum ClipType {
    Text,
    TextArea,
    Image,
}

impl ClipType {
    /// The tag under which a clip type travels as a form argument.
    pub open spec fn tag(self) -> Seq<char> {
        match self {
            ClipType::Text => "Text"@,
            ClipType::TextArea => "TextArea"@,
            ClipType::Image => "Image"@,
        }
    }

    /// The variant's name as text.
    pub fn to_string(&self) -> (s: String)
        ensures
            s@ == self.tag(),
    {
        match self {
            ClipType::Text => "Text".to_owned(),
            ClipType::TextArea => "TextArea".to_owned(),
            ClipType::Image => "Image".to_owned(),
        }
    }
}

/// One stored snippet.
#[derive(Debug)]
pub struct Clip {
    pub id: usize,
    pub keyword: String,
    pub name: String,
    pub content: String,
    pub clip_type: ClipType,
}

/// A clip as contracts see it: its id as a number and its texts as
/// sequences of characters.
pub struct ClipView {
    pub id: nat,
    pub keyword: Seq<char>,
    pub name: Seq<char>,
    pub content: Seq<char>,
    pub clip_type: ClipType,
}

impl View for Clip {
    type V = ClipView;

    open spec fn view(&self) -> ClipView {
        ClipView {
            id: self.id as nat,
            keyword: self.keyword@,
            name: self.name@,
            content: self.content@,
            clip_type: self.clip_type,
        }
    }
}

impl DeepView for Clip {
    type V = ClipView;

    open spec fn deep_view(&self) -> ClipView {
        self@
    }
}

impl Clone for Clip {
    fn clone(&self) -> (copy: Self)
        ensures
            copy == *self,
    {
        Clip {
            id: self.id,
            keyword: self.keyword.clone(),
            name: self.name.clone(),
            content: self.content.clone(),
            clip_type: self.clip_type,
        }
    }
}

/// The largest id among `clips`, and 0 where there are none.
pub open spec fn max_id(clips: Seq<ClipView>) -> nat
    decreases clips.len(),
{
    if clips.len() == 0 {
        0
    } else {
        let rest = max_id(clips.drop_last());
        if clips.last().id > rest {
            clips.last().id
        } else {
            rest
        }
    }
}

/// The id that the next clip added to `clips` receives: 0 for an empty
/// store, otherwise one more than the largest id present.
pub open spec fn next_id(clips: Seq<ClipView>) -> nat {
    if clips.len() == 0 {
        0
    } else {
        max_id(clips) + 1
    }
}

/// No two clips share an id.
pub open spec fn distinct_ids(clips: Seq<ClipView>) -> bool {
    forall|i: int, j: int| 0 <= i < j < clips.len() ==> clips[i].id != clips[j].id
}

/// Some clip of `clips` has the id `id`.
pub open spec fn has_id(clips: Seq<ClipView>, id: nat) -> bool {
    exists|i: int| 0 <= i < clips.len() && #[trigger] clips[i].id == id
}

/// `clips` without the clips whose id is `id`, the others in their order.
pub open spec fn without_id(clips: Seq<ClipView>, id: nat) -> Seq<ClipView> {
    clips.filter(|c: ClipView| c.id != id)
}

/// `clip` with new texts; its id and its type stay.
pub open spec fn edited(
    clip: ClipView,
    keyword: Seq<char>,
    name: Seq<char>,
    content: Seq<char>,
) -> ClipView {
    ClipView { id: clip.id, keyword, name, content, clip_type: clip.clip_type }
}

/// `clips` with the texts of every clip whose id is `id` replaced.
pub open spec fn with_update(
    clips: Seq<ClipView>,
    id: nat,
    keyword: Seq<char>,
    name: Seq<char>,
    content: Seq<char>,
) -> Seq<ClipView> {
    clips.map_values(
        |c: ClipView|
            if c.id == id {
                edited(c, keyword, name, content)
            } else {
                c
            },
    )
}

/// Every id in `clips` is at most `max_id(clips)`, and in a non-empty store
/// some clip holds it.
pub proof fn lemma_max_id(clips: Seq<ClipView>)
    ensures
        forall|i: int| 0 <= i < clips.len() ==> (#[trigger] clips[i]).id <= max_id(clips),
        clips.len() > 0 ==> has_id(clips, max_id(clips)),
    decreases clips.len(),
{
    if clips.len() > 0 {
        let rest = clips.drop_last();
        lemma_max_id(rest);
        assert forall|i: int| 0 <= i < clips.len() implies (#[trigger] clips[i]).id <= max_id(
            clips,
        ) by {
            if i < clips.len() - 1 {
                assert(clips[i] == rest[i]);
            }
        }
        if clips.last().id > max_id(rest) || rest.len() == 0 {
            assert(clips[clips.len() - 1].id == max_id(clips));
        } else {
            let k = choose|k: int| 0 <= k < rest.len() && #[trigger] rest[k].id == max_id(rest);
            assert(clips[k].id == max_id(clips));
        }
    }
}

/// The next id is fresh: no clip of the store holds it, and none holds a
/// larger one.
pub proof fn lemma_next_id_fresh(clips: Seq<ClipView>)
    ensures
        forall|i: int| 0 <= i < clips.len() ==> (#[trigger] clips[i]).id < next_id(clips),
        !has_id(clips, next_id(clips)),
{
    lemma_max_id(clips);
}

/// The clips as a store holds them.
#[derive(Debug)]
pub struct Database {
    pub clips: Vec<Clip>,
}

impl Clone for Database {
    fn clone(&self) -> (copy: Self)
        ensures
            copy@ == self@,
    {
        let mut clips: Vec<Clip> = Vec::new();
        let n: usize = self.clips.len();
        let mut i: usize = 0;
        while i < n
            invariant
                n == self.clips.len(),
                i <= n,
                clips.deep_view() == self@.take(i as int),
            decreases n - i,
        {
            clips.push(self.clips[i].clone());
            assert(self@.take(i + 1) =~= self@.take(i as int).push(self@[i as int]));
            i = i + 1;
        }
        Database { clips }
    }
}

impl View for Database {
    type V = Seq<ClipView>;

    open spec fn view(&self) -> Seq<ClipView> {
        self.clips.deep_view()
    }
}

impl Clip {
    /// A clip for `db` with the next free id. The store itself is not
    /// changed: `Database::add_clip` appends the clip.
    pub fn new(db: &Database, keyword: &str, name: &str, content: &str, clip_type: ClipType) -> (clip:
        Clip)
        requires
            next_id(db@) <= usize::MAX,
        ensures
            clip@ == (ClipView {
                id: next_id(db@),
                keyword: keyword@,
                name: name@,
                content: content@,
                clip_type,
            }),
    {
        let id: usize = if db.clips.len() == 0 {
            0
        } else {
            db.largest_id() + 1
        };
        Clip {
            id,
            keyword: keyword.to_owned(),
            name: name.to_owned(),
            content: content.to_owned(),
            clip_type,
        }
    }
}

impl Database {
    /// A store without clips.
    pub fn new() -> (db: Database)
        ensures
            db@ == Seq::<ClipView>::empty(),
            db.wf(),
    {
        let db = Database { clips: Vec::new() };
        db
    }

    /// The store's invariant: ids are unique.
    pub open spec fn wf(&self) -> bool {
        distinct_ids(self@)
    }

    /// The largest id in the store, and 0 for a store without clips.
    fn largest_id(&self) -> (id: usize)
        ensures
            id == max_id(self@),
    {
        let n: usize = self.clips.len();
        let mut largest: usize = 0;
        let mut i: usize = 0;
        while i < n
            invariant
                n == self.clips.len(),
                i <= n,
                largest == max_id(self@.take(i as int)),
            decreases n - i,
        {
            assert(self@.take(i + 1).drop_last() =~= self@.take(i as int));
            if self.clips[i].id > largest {
                largest = self.clips[i].id;
            }
            i = i + 1;
        }
        assert(self@.take(n as int) =~= self@);
        largest
    }

    /// The id that the next clip gets, or `None` where it would not fit the
    /// machine's word.
    pub fn next_id(&self) -> (id: Option<usize>)
        ensures
            match id {
                Some(n) => n == next_id(self@),
                None => next_id(self@) > usize::MAX,
            },
    {
        if self.clips.len() == 0 {
            Some(0)
        } else {
            self.largest_id().checked_add(1)
        }
    }

    /// Appends `clip` as it is.
    pub fn add_clip(&mut self, clip: Clip)
        ensures
            final(self)@ == old(self)@.push(clip@),
            old(self).wf() && !has_id(old(self)@, clip@.id) ==> final(self).wf(),
    {
        self.clips.push(clip);
        assert(self@ =~= old(self)@.push(clip@));
    }

    /// Makes a clip with the next free id, appends it and hands back a copy.
    pub fn add(&mut self, keyword: &str, name: &str, content: &str, clip_type: ClipType) -> (clip:
        Clip)
        requires
            next_id(old(self)@) <= usize::MAX,
        ensures
            clip@ == (ClipView {
                id: next_id(old(self)@),
                keyword: keyword@,
                name: name@,
                content: content@,
                clip_type,
            }),
            final(self)@ == old(self)@.push(clip@),
            old(self).wf() ==> final(self).wf(),
    {
        let clip = Clip::new(self, keyword, name, content, clip_type);
        proof {
            lemma_next_id_fresh(self@);
        }
        self.add_clip(clip.clone());
        clip
    }

    /// Drops every clip whose id is `id`; the others keep their order.
    pub fn remove(&mut self, id: usize)
        ensures
            final(self)@ == without_id(old(self)@, id as nat),
            old(self).wf() ==> final(self).wf(),
    {
        let mut kept: Vec<Clip> = Vec::new();
        let n: usize = self.clips.len();
        let mut i: usize = 0;
        proof {
            reveal(Seq::filter);
        }
        while i < n
            invariant
                n == self.clips.len(),
                i <= n,
                *self == *old(self),
                kept.deep_view() == without_id(self@.take(i as int), id as nat),
            decreases n - i,
        {
            proof {
                assert(self@.take(i + 1) =~= self@.take(i as int).push(self@[i as int]));
                self@.take(i as int).lemma_filter_push(
                    self@[i as int],
                    |c: ClipView| c.id != id as nat,
                );
            }
            if self.clips[i].id != id {
                kept.push(self.clips[i].clone());
            }
            i = i + 1;
        }
        assert(self@.take(n as int) =~= self@);
        proof {
            if old(self).wf() {
                lemma_without_id_distinct(old(self)@, id as nat);
            }
        }
        self.clips = kept;
    }

    /// Gives the clip whose id is `id` new texts. Its id and its type stay,
    /// and so does every other clip; with no such clip nothing changes.
    pub fn update(&mut self, id: usize, keyword: &str, name: &str, content: &str)
        ensures
            final(self)@ == with_update(old(self)@, id as nat, keyword@, name@, content@),
            old(self).wf() ==> final(self).wf(),
    {
        let n: usize = self.clips.len();
        let mut i: usize = 0;
        while i < n
            invariant
                n == self.clips.len(),
                n == old(self).clips.len(),
                i <= n,
                forall|k: int|
                    0 <= k < i ==> (#[trigger] self@[k]) == with_update(
                        old(self)@,
                        id as nat,
                        keyword@,
                        name@,
                        content@,
                    )[k],
                forall|k: int| i <= k < n ==> (#[trigger] self@[k]) == old(self)@[k],
            decreases n - i,
        {
            let ghost before = self@;
            if self.clips[i].id == id {
                let clip_type = self.clips[i].clip_type;
                let clip = Clip {
                    id,
                    keyword: keyword.to_owned(),
                    name: name.to_owned(),
                    content: content.to_owned(),
                    clip_type,
                };
                assert(clip@ == edited(before[i as int], keyword@, name@, content@));
                self.clips.set(i, clip);
            }
            assert forall|k: int| 0 <= k < n && k != i implies (#[trigger] self@[k]) == before[k] by {}
            i = i + 1;
        }
    }
}

/// Where the store is kept inside the user's configuration directory, one
/// path component after the other: the directory `tigris-clipper` and in
/// it the file `db.json`.
pub open spec fn db_path() -> Seq<Seq<char>> {
    seq!["tigris-clipper"@, "db.json"@]
}

/// Where the store is kept inside the user's configuration directory. The
/// caller knows that directory and joins the components to it.
pub fn get_db_path() -> (path: Vec<String>)
    ensures
        path.deep_view() == db_path(),
{
    let mut path: Vec<String> = Vec::new();
    path.push("tigris-clipper".to_owned());
    path.push("db.json".to_owned());
    path
}

/// What a removal leaves: no clip with the removed id, and every other clip
/// of the store as it was.
pub proof fn lemma_without_id(clips: Seq<ClipView>, id: nat)
    ensures
        !has_id(without_id(clips, id), id),
        forall|i: int|
            0 <= i < without_id(clips, id).len() ==> clips.contains(
                #[trigger] without_id(clips, id)[i],
            ),
        forall|i: int|
            0 <= i < clips.len() && clips[i].id != id ==> without_id(clips, id).contains(
                #[trigger] clips[i],
            ),
{
    let keep = |c: ClipView| c.id != id;
    let out = without_id(clips, id);
    assert forall|i: int| 0 <= i < out.len() implies out[i].id != id && clips.contains(
        #[trigger] out[i],
    ) by {
        clips.lemma_filter_pred(keep, i);
        clips.lemma_filter_contains_rev(keep, out[i]);
    }
    assert forall|i: int| 0 <= i < clips.len() && clips[i].id != id implies out.contains(
        #[trigger] clips[i],
    ) by {
        clips.lemma_filter_contains(keep, i);
    }
}

/// A removal keeps what is left free of duplicates.
pub proof fn lemma_without_id_distinct(clips: Seq<ClipView>, id: nat)
    requires
        distinct_ids(clips),
    ensures
        distinct_ids(without_id(clips, id)),
    decreases clips.len(),
{
    reveal(Seq::filter);
    let keep = |c: ClipView| c.id != id;
    let out = without_id(clips, id);
    if clips.len() > 0 {
        let rest = clips.drop_last();
        assert forall|i: int, j: int| 0 <= i < j < rest.len() implies rest[i].id != rest[j].id by {
            assert(rest[i] == clips[i] && rest[j] == clips[j]);
        }
        lemma_without_id_distinct(rest, id);
        let sub = without_id(rest, id);
        if keep(clips.last()) {
            assert(out == sub.push(clips.last()));
            assert forall|i: int, j: int| 0 <= i < j < out.len() implies out[i].id != out[j].id by {
                if j == out.len() - 1 {
                    assert(sub.contains(sub[i]));
                    rest.lemma_filter_contains_rev(keep, sub[i]);
                    let k = choose|k: int| 0 <= k < rest.len() && rest[k] == sub[i];
                    assert(clips[k] == sub[i]);
                } else {
                    assert(out[i] == sub[i] && out[j] == sub[j]);
                }
            }
        } else {
            assert(out == sub);
        }
    }
}

/// When the id of a removed clip comes back: the next clip gets it only if
/// every clip that is left has a smaller id and the id just below it is
/// still in use, or if no clip is left and the id was 0. In particular it
/// does not come back while a clip with a larger id is in the store.
pub proof fn lemma_removed_id_comes_back_only_from_the_top(clips: Seq<ClipView>, id: nat)
    ensures
        next_id(without_id(clips, id)) == id <==> {
            let left = without_id(clips, id);
            &&& forall|j: int| 0 <= j < left.len() ==> (#[trigger] left[j]).id < id
            &&& if left.len() == 0 {
                id == 0
            } else {
                id > 0 && has_id(left, (id - 1) as nat)
            }
        },
        (exists|j: int| 0 <= j < clips.len() && (#[trigger] clips[j]).id > id) ==> next_id(
            without_id(clips, id),
        ) > id,
{
    let left = without_id(clips, id);
    lemma_without_id(clips, id);
    lemma_max_id(left);
    if left.len() > 0 {
        let top = choose|k: int| 0 <= k < left.len() && #[trigger] left[k].id == max_id(left);
        if forall|j: int| 0 <= j < left.len() ==> (#[trigger] left[j]).id < id {
            if id > 0 && has_id(left, (id - 1) as nat) {
                let k = choose|k: int| 0 <= k < left.len() && #[trigger] left[k].id == (id - 1) as nat;
                assert(left[k].id <= max_id(left));
                assert(left[top].id < id);
            }
        }
    }
    if exists|j: int| 0 <= j < clips.len() && (#[trigger] clips[j]).id > id {
        let j = choose|j: int| 0 <= j < clips.len() && (#[trigger] clips[j]).id > id;
        assert(left.contains(clips[j]));
        let k = choose|k: int| 0 <= k < left.len() && left[k] == clips[j];
        assert(left[k].id <= max_id(left));
    }
}

/// New texts for a clip change no clip's id and no clip's type, and leave
/// the store's length and every other clip as they were.
pub proof fn lemma_update_keeps_id_and_type(
    clips: Seq<ClipView>,
    id: nat,
    keyword: Seq<char>,
    name: Seq<char>,
    content: Seq<char>,
)
    ensures
        with_update(clips, id, keyword, name, content).len() == clips.len(),
        forall|i: int|
            0 <= i < clips.len() ==> {
                let after = #[trigger] with_update(clips, id, keyword, name, content)[i];
                &&& after.id == clips[i].id
                &&& after.clip_type == clips[i].clip_type
                &&& clips[i].id != id ==> after == clips[i]
            },
{
}

} // verus!

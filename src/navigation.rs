use vstd::prelude::*;
use crate::iterator::{
    PickleError, PickleIterator, PickleView, Timestamp, reader_wf, step_bool, step_bytes, step_datetime,
    step_i32, step_i64, step_string, step_string16, step_u32,
};
use crate::text::{same_text, scalars_of};
use crate::transition::PageTransition;

verus! {

/// The map that a list of key/value pairs describes, a later pair overriding
/// an earlier one of the same key.
pub open spec fn pairs_map(s: Seq<(String, String)>) -> Map<Seq<char>, Seq<char>>
    decreases s.len(),
{
    if s.len() == 0 {
        Map::empty()
    } else {
        pairs_map(s.drop_last()).insert(s.last().0@, s.last().1@)
    }
}

pub open spec fn keys_unique(s: Seq<(String, String)>) -> bool {
    forall|i: int, j: int| 0 <= i < j < s.len() ==> s[i].0@ != s[j].0@
}

proof fn lemma_pairs_map_replace(s: Seq<(String, String)>, j: int, p: (String, String))
    requires
        keys_unique(s),
        0 <= j < s.len(),
        s[j].0@ == p.0@,
    ensures
        pairs_map(s.update(j, p)) =~= pairs_map(s).insert(p.0@, p.1@),
    decreases s.len(),
{
    let t = s.update(j, p);
    if j == s.len() - 1 {
        assert(t.drop_last() =~= s.drop_last());
    } else {
        assert(t.drop_last() =~= s.drop_last().update(j, p));
        lemma_pairs_map_replace(s.drop_last(), j, p);
        assert(s.last().0@ != p.0@);
    }
}

/// Adds a pair to a list of unique keys, replacing the value of an equal key.
fn insert_entry(map: &mut Vec<(String, String)>, key: String, value: String)
    requires
        keys_unique(old(map)@),
    ensures
        keys_unique(final(map)@),
        pairs_map(final(map)@) == pairs_map(old(map)@).insert(key@, value@),
{
    let mut j: usize = 0;
    while j < map.len()
        invariant
            map@ == old(map)@,
            keys_unique(map@),
            j <= map@.len(),
            forall|i: int| 0 <= i < j ==> map@[i].0@ != key@,
        decreases map@.len() - j,
    {
        if same_text(&map[j].0, &key) {
            proof {
                lemma_pairs_map_replace(map@, j as int, (key, value));
            }
            map.set(j, (key, value));
            return;
        }
        j = j + 1;
    }
    map.push((key, value));
    assert(map@.drop_last() =~= old(map)@);
}

/// The required fields of a navigation entry.
pub struct NavigationPrefix {
    pub session_id: i32,
    pub index: i32,
    pub url: Seq<char>,
    pub title: Seq<u32>,
    pub page_state: Seq<u8>,
    pub transition: u32,
    pub type_mask: u32,
}

/// A navigation entry as values: text as characters (UTF-16 text as scalar
/// values), optional fields as `None` where they are absent.
pub struct NavigationModel {
    pub session_id: i32,
    pub index: i32,
    pub url: Seq<char>,
    pub title: Seq<u32>,
    pub page_state: Seq<u8>,
    pub transition: u32,
    pub type_mask: u32,
    pub referrer_url: Option<Seq<char>>,
    pub reserved: Option<i32>,
    pub original_request_url: Option<Seq<char>>,
    pub is_overriding_user_agent: Option<bool>,
    pub timestamp: Option<Timestamp>,
    pub search_terms: Option<Seq<u32>>,
    pub http_status: Option<i32>,
    pub referrer_policy: Option<i32>,
    pub extended_map: Option<Map<Seq<char>, Seq<char>>>,
    pub task_id: Option<i64>,
    pub parent_task_id: Option<i64>,
    pub root_task_id: Option<i64>,
    pub child_task_id_count: Option<i32>,
}

pub open spec fn present<T>(r: Result<T, PickleError>) -> Option<T> {
    match r {
        Ok(v) => Some(v),
        Err(_) => None,
    }
}

/// The required fields, in order; the first failure fails them all.
pub open spec fn step_prefix(r0: PickleView) -> (Result<NavigationPrefix, PickleError>, PickleView) {
    let (session_id, r1) = step_i32(r0);
    match session_id {
        Err(e) => (Err(e), r1),
        Ok(session_id) => {
            let (index, r2) = step_i32(r1);
            match index {
                Err(e) => (Err(e), r2),
                Ok(index) => {
                    let (url, r3) = step_string(r2);
                    match url {
                        Err(e) => (Err(e), r3),
                        Ok(url) => {
                            let (title, r4) = step_string16(r3);
                            match title {
                                Err(e) => (Err(e), r4),
                                Ok(title) => {
                                    let (n, r5) = step_i32(r4);
                                    match n {
                                        Err(e) => (Err(e), r5),
                                        Ok(n) => {
                                            let (page_state, r6) = step_bytes(r5, n as int);
                                            match page_state {
                                                Err(e) => (Err(e), r6),
                                                Ok(page_state) => {
                                                    let (transition, r7) = step_u32(r6);
                                                    match transition {
                                                        Err(e) => (Err(e), r7),
                                                        Ok(transition) => {
                                                            let (type_mask, r8) = step_u32(r7);
                                                            match type_mask {
                                                                Err(e) => (Err(e), r8),
                                                                Ok(type_mask) => (
                                                                    Ok(
                                                                        NavigationPrefix {
                                                                            session_id,
                                                                            index,
                                                                            url,
                                                                            title,
                                                                            page_state,
                                                                            transition,
                                                                            type_mask,
                                                                        },
                                                                    ),
                                                                    r8,
                                                                ),
                                                            }
                                                        },
                                                    }
                                                },
                                            }
                                        },
                                    }
                                },
                            }
                        },
                    }
                },
            }
        },
    }
}

/// `k` key/value string pairs; the first failure fails the map.
pub open spec fn step_pairs(r: PickleView, k: nat) -> (
    Result<Map<Seq<char>, Seq<char>>, PickleError>,
    PickleView,
)
    decreases k,
{
    if k == 0 {
        (Ok(Map::empty()), r)
    } else {
        let (prev, r1) = step_pairs(r, (k - 1) as nat);
        match prev {
            Err(e) => (Err(e), r1),
            Ok(m) => {
                let (key, r2) = step_string(r1);
                match key {
                    Err(e) => (Err(e), r2),
                    Ok(key) => {
                        let (value, r3) = step_string(r2);
                        match value {
                            Err(e) => (Err(e), r3),
                            Ok(value) => (Ok(m.insert(key, value)), r3),
                        }
                    },
                }
            },
        }
    }
}

/// Once a pair has failed, further pairs read nothing.
proof fn lemma_pairs_stop(r: PickleView, j: nat, k: nat)
    requires
        j <= k,
        step_pairs(r, j).0 is Err,
    ensures
        step_pairs(r, k) == step_pairs(r, j),
    decreases k - j,
{
    if j < k {
        lemma_pairs_stop(r, j, (k - 1) as nat);
    }
}

/// The whole entry: the required fields, then each optional field in turn,
/// absent where its read fails. The task fields are read only after a whole
/// extended map, whose pairs are read only after its count.
#[verifier::opaque]
pub open spec fn step_navigation(r0: PickleView) -> (Result<NavigationModel, PickleError>, PickleView) {
    match step_prefix(r0) {
        (Err(e), r) => (Err(e), r),
        (Ok(p), r) => {
            let (referrer_url, t1) = step_string(r);
            let (reserved, t2) = step_i32(t1);
            let (original_request_url, t3) = step_string(t2);
            let (is_overriding_user_agent, t4) = step_bool(t3);
            let (timestamp, t5) = step_datetime(t4);
            let (search_terms, t6) = step_string16(t5);
            let (http_status, t7) = step_i32(t6);
            let (referrer_policy, t8) = step_i32(t7);
            let (count, t9) = step_i32(t8);
            let (extended_map, t10) = match count {
                Ok(c) => step_pairs(t9, if c > 0 { c as nat } else { 0 }),
                Err(e) => (Err(e), t9),
            };
            let tasks = extended_map is Ok;
            let (task_id, t11) = if tasks { step_i64(t10) } else { (Err(PickleError::IoError), t10) };
            let (parent_task_id, t12) = if tasks { step_i64(t11) } else { (Err(PickleError::IoError), t11) };
            let (root_task_id, t13) = if tasks { step_i64(t12) } else { (Err(PickleError::IoError), t12) };
            let (child_task_id_count, t14) = if tasks { step_i32(t13) } else { (Err(PickleError::IoError), t13) };
            (
                Ok(
                    NavigationModel {
                        session_id: p.session_id,
                        index: p.index,
                        url: p.url,
                        title: p.title,
                        page_state: p.page_state,
                        transition: p.transition,
                        type_mask: p.type_mask,
                        referrer_url: present(referrer_url),
                        reserved: present(reserved),
                        original_request_url: present(original_request_url),
                        is_overriding_user_agent: present(is_overriding_user_agent),
                        timestamp: present(timestamp),
                        search_terms: present(search_terms),
                        http_status: present(http_status),
                        referrer_policy: present(referrer_policy),
                        extended_map: present(extended_map),
                        task_id: present(task_id),
                        parent_task_id: present(parent_task_id),
                        root_task_id: present(root_task_id),
                        child_task_id_count: present(child_task_id_count),
                    },
                ),
                t14,
            )
        },
    }
}

/// A payload that ends right after the type mask decodes to an entry with
/// every required field and no optional one.
pub proof fn lemma_tail_absent_at_end(r0: PickleView)
    requires
        reader_wf(r0),
        step_prefix(r0).0 is Ok,
        step_prefix(r0).1.pos == r0.bytes.len(),
    ensures
        step_navigation(r0).0 matches Ok(m) && {
            let p = step_prefix(r0).0->Ok_0;
            &&& m.session_id == p.session_id
            &&& m.index == p.index
            &&& m.url == p.url
            &&& m.title == p.title
            &&& m.page_state == p.page_state
            &&& m.transition == p.transition
            &&& m.type_mask == p.type_mask
            &&& m.referrer_url is None
            &&& m.reserved is None
            &&& m.original_request_url is None
            &&& m.is_overriding_user_agent is None
            &&& m.timestamp is None
            &&& m.search_terms is None
            &&& m.http_status is None
            &&& m.referrer_policy is None
            &&& m.extended_map is None
            &&& m.task_id is None
            &&& m.parent_task_id is None
            &&& m.root_task_id is None
            &&& m.child_task_id_count is None
        },
{
    reveal(step_navigation);
}

pub open spec fn opt_text(o: Option<String>) -> Option<Seq<char>> {
    match o {
        Some(s) => Some(s@),
        None => None,
    }
}

pub open spec fn opt_text16(o: Option<String>) -> Option<Seq<u32>> {
    match o {
        Some(s) => Some(scalars_of(s@)),
        None => None,
    }
}

pub open spec fn opt_map(o: Option<Vec<(String, String)>>) -> Option<Map<Seq<char>, Seq<char>>> {
    match o {
        Some(v) => Some(pairs_map(v@)),
        None => None,
    }
}

/// One entry of a tab's navigation history.
#[derive(Debug)]
pub struct NavigationEntry {
    pub session_id: i32,
    pub index: i32,
    pub url: String,
    pub title: String,
    pub page_state_raw: Vec<u8>,
    pub transition_type: PageTransition,
    pub type_mask: u32,
    /// A field of unknown meaning that follows the referrer URL.
    pub unknown: Option<i32>,
    pub referrer_url: Option<String>,
    pub original_request_url: Option<String>,
    pub is_overriding_user_agent: Option<bool>,
    pub search_terms: Option<String>,
    pub timestamp: Option<Timestamp>,
    pub http_status: Option<i32>,
    pub referrer_policy: Option<i32>,
    /// Key/value pairs with unique keys, in no particular order.
    pub extended_map: Option<Vec<(String, String)>>,
    pub task_id: Option<i64>,
    pub parent_task_id: Option<i64>,
    pub root_task_id: Option<i64>,
    pub child_task_id_count: Option<i32>,
}

impl View for NavigationEntry {
    type V = NavigationModel;

    open spec fn view(&self) -> NavigationModel {
        NavigationModel {
            session_id: self.session_id,
            index: self.index,
            url: self.url@,
            title: scalars_of(self.title@),
            page_state: self.page_state_raw@,
            transition: self.transition_type.value,
            type_mask: self.type_mask,
            referrer_url: opt_text(self.referrer_url),
            reserved: self.unknown,
            original_request_url: opt_text(self.original_request_url),
            is_overriding_user_agent: self.is_overriding_user_agent,
            timestamp: self.timestamp,
            search_terms: opt_text16(self.search_terms),
            http_status: self.http_status,
            referrer_policy: self.referrer_policy,
            extended_map: opt_map(self.extended_map),
            task_id: self.task_id,
            parent_task_id: self.parent_task_id,
            root_task_id: self.root_task_id,
            child_task_id_count: self.child_task_id_count,
        }
    }
}

impl NavigationEntry {
    pub open spec fn wf(&self) -> bool {
        &&& self.transition_type.wf()
        &&& (self.extended_map matches Some(v) ==> keys_unique(v@))
    }

    /// Decodes an entry at the reader's cursor. A failure among the required
    /// fields fails the entry; a failure in the optional tail leaves that
    /// field absent.
    #[verifier::rlimit(40)]
    pub fn from_pickle(pickle: &mut PickleIterator) -> (r: Result<NavigationEntry, PickleError>)
        requires
            old(pickle).wf(),
        ensures
            final(pickle).wf(),
            step_navigation(old(pickle)@).1 == final(pickle)@,
            match r {
                Ok(e) => step_navigation(old(pickle)@).0 == Ok::<NavigationModel, PickleError>(e@) && e.wf(),
                Err(e) => step_navigation(old(pickle)@).0 == Err::<NavigationModel, PickleError>(e),
            },
    {
        reveal(step_navigation);
        let session_id = match pickle.read_int32() {
            Ok(v) => v,
            Err(e) => return Err(e),
        };
        let index = match pickle.read_int32() {
            Ok(v) => v,
            Err(e) => return Err(e),
        };
        let url = match pickle.read_string() {
            Ok(v) => v,
            Err(e) => return Err(e),
        };
        let title = match pickle.read_string16() {
            Ok(v) => v,
            Err(e) => return Err(e),
        };
        let page_state_length = match pickle.read_int32() {
            Ok(v) => v,
            Err(e) => return Err(e),
        };
        if page_state_length < 0 {
            return Err(PickleError::IoError);
        }
        let page_state_raw = match pickle.read_aligned(page_state_length as usize) {
            Ok(v) => v,
            Err(e) => return Err(e),
        };
        let transition_value = match pickle.read_uint32() {
            Ok(v) => v,
            Err(e) => return Err(e),
        };
        let transition_type = PageTransition::new(transition_value);
        let type_mask = match pickle.read_uint32() {
            Ok(v) => v,
            Err(e) => return Err(e),
        };
        let referrer_url = pickle.read_string().ok();
        let unknown = pickle.read_int32().ok();
        let original_request_url = pickle.read_string().ok();
        let is_overriding_user_agent = pickle.read_bool().ok();
        let timestamp = pickle.read_datetime().ok();
        let search_terms = pickle.read_string16().ok();
        let http_status = pickle.read_int32().ok();
        let referrer_policy = pickle.read_int32().ok();
        let count = pickle.read_int32();
        let extended_map = match count {
            Ok(c) => Self::read_extended_map(pickle, c),
            Err(_) => None,
        };
        let (task_id, parent_task_id, root_task_id, child_task_id_count) = if extended_map.is_some() {
            let task_id = pickle.read_int64().ok();
            let parent_task_id = pickle.read_int64().ok();
            let root_task_id = pickle.read_int64().ok();
            let child_task_id_count = pickle.read_int32().ok();
            (task_id, parent_task_id, root_task_id, child_task_id_count)
        } else {
            (None, None, None, None)
        };
        let entry = NavigationEntry {
            session_id,
            index,
            url,
            title,
            page_state_raw,
            transition_type,
            type_mask,
            unknown,
            referrer_url,
            original_request_url,
            is_overriding_user_agent,
            search_terms,
            timestamp,
            http_status,
            referrer_policy,
            extended_map,
            task_id,
            parent_task_id,
            root_task_id,
            child_task_id_count,
        };
        Ok(entry)
    }

    /// Reads `count` key/value pairs; `None` once one of them fails.
    fn read_extended_map(pickle: &mut PickleIterator, count: i32) -> (r: Option<Vec<(String, String)>>)
        requires
            old(pickle).wf(),
        ensures
            final(pickle).wf(),
            step_pairs(old(pickle)@, if count > 0 { count as nat } else { 0 }).1 == final(pickle)@,
            present(step_pairs(old(pickle)@, if count > 0 { count as nat } else { 0 }).0) == opt_map(r),
            r matches Some(v) ==> keys_unique(v@),
    {
        let ghost start = pickle@;
        let mut map: Vec<(String, String)> = Vec::new();
        let mut i: i32 = 0;
        let mut failed = false;
        while !failed && i < count
            invariant
                pickle.wf(),
                0 <= i,
                i <= count || i == 0,
                keys_unique(map@),
                !failed ==> step_pairs(start, i as nat) == (
                    Ok::<Map<Seq<char>, Seq<char>>, PickleError>(pairs_map(map@)),
                    pickle@,
                ),
                failed ==> step_pairs(start, i as nat).0 is Err && step_pairs(start, i as nat).1 == pickle@,
                failed ==> i <= count,
            decreases count - i,
        {
            let key = pickle.read_string();
            match key {
                Err(_) => {
                    failed = true;
                },
                Ok(key) => {
                    let value = pickle.read_string();
                    match value {
                        Err(_) => {
                            failed = true;
                        },
                        Ok(value) => {
                            insert_entry(&mut map, key, value);
                        },
                    }
                },
            }
            i = i + 1;
        }
        let ghost k: nat = if count > 0 { count as nat } else { 0 };
        if failed {
            proof {
                lemma_pairs_stop(start, i as nat, k);
            }
            None
        } else {
            Some(map)
        }
    }

    /// Whether the type mask marks the entry as having post data.
    pub fn has_post_data(self) -> (r: bool)
        ensures
            r == (self.type_mask & 1 != 0),
    {
        self.type_mask & 0x01 != 0
    }
}

} // verus!

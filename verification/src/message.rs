//! The typed records that decoding produces, and their models.

use crate::json::{value_tree, JsonTree};
use serde_json::Value;
use vstd::prelude::*;

verus! {

/// The identifier that ties a request to its response.
#[derive(Debug, Clone, PartialEq)]
pub enum RequestId {
    String(String),
    Number(i64),
    Null,
}

/// The model of a `RequestId`.
pub enum IdView {
    String(Seq<char>),
    Number(i64),
    Null,
}

impl View for RequestId {
    type V = IdView;

    open spec fn view(&self) -> IdView {
        match *self {
            RequestId::String(s) => IdView::String(s@),
            RequestId::Number(n) => IdView::Number(n),
            RequestId::Null => IdView::Null,
        }
    }
}

/// The position of a key among the entries of a parameter list.
pub open spec fn entry_index(s: Seq<(String, Value)>, k: Seq<char>) -> int {
    choose|i: int| 0 <= i < s.len() && (#[trigger] s[i]).0@ == k
}

/// The lookup table that a list of entries stands for.
pub open spec fn entries_map(s: Seq<(String, Value)>) -> Map<Seq<char>, JsonTree> {
    Map::new(
        |k: Seq<char>| exists|i: int| 0 <= i < s.len() && (#[trigger] s[i]).0@ == k,
        |k: Seq<char>| value_tree(s[entry_index(s, k)].1),
    )
}

/// No key occurs twice among the entries.
pub open spec fn distinct_keys(s: Seq<(String, Value)>) -> bool {
    forall|i: int, j: int| 0 <= i < j < s.len() ==> (#[trigger] s[i]).0@ != (#[trigger] s[j]).0@
}

/// A list of entries with distinct keys stands for a table with as many
/// members as the list has entries.
pub proof fn lemma_entries_count(s: Seq<(String, Value)>)
    requires
        distinct_keys(s),
    ensures
        entries_map(s).dom().finite(),
        entries_map(s).len() == s.len(),
    decreases s.len(),
{
    if s.len() == 0 {
        assert(entries_map(s).dom() =~= Set::<Seq<char>>::empty());
    } else {
        let p = s.drop_last();
        let k = s.last().0@;
        assert forall|i: int, j: int| 0 <= i < j < p.len() implies (#[trigger] p[i]).0@ != (
        #[trigger] p[j]).0@ by {
            assert(p[i] == s[i] && p[j] == s[j]);
        }
        lemma_entries_count(p);
        assert(!entries_map(p).dom().contains(k)) by {
            if entries_map(p).dom().contains(k) {
                let c = entry_index(p, k);
                assert(p[c] == s[c]);
                assert(s[c].0@ != s[s.len() - 1].0@);
            }
        }
        assert forall|x: Seq<char>| entries_map(s).dom().contains(x) implies entries_map(
            p,
        ).dom().insert(k).contains(x) by {
            let c = entry_index(s, x);
            if c < p.len() {
                assert(p[c] == s[c]);
            }
        }
        assert forall|x: Seq<char>| entries_map(p).dom().insert(k).contains(
            x,
        ) implies entries_map(s).dom().contains(x) by {
            if x == k {
                assert(s[s.len() - 1].0@ == x);
            } else {
                let c = entry_index(p, x);
                assert(p[c] == s[c]);
            }
        }
        assert(entries_map(s).dom() =~= entries_map(p).dom().insert(k));
    }
}

/// The keyed parameters of a request: a lookup table from names to JSON
/// values, in no particular order.
#[derive(Debug, Clone)]
pub struct Params {
    pub entries: Vec<(String, Value)>,
}

impl View for Params {
    type V = Map<Seq<char>, JsonTree>;

    open spec fn view(&self) -> Map<Seq<char>, JsonTree> {
        entries_map(self.entries@)
    }
}

impl Params {
    /// Every key is held once.
    pub open spec fn wf(&self) -> bool {
        distinct_keys(self.entries@)
    }

    /// Whether every key is held once.
    pub fn has_distinct_keys(&self) -> (r: bool)
        ensures
            r == self.wf(),
    {
        let n = self.entries.len();
        let mut j: usize = 0;
        while j < n
            invariant
                j <= n,
                n == self.entries.len(),
                forall|a: int, b: int|
                    0 <= a < b < j ==> (#[trigger] self.entries@[a]).0@ != (
                    #[trigger] self.entries@[b]).0@,
            decreases n - j,
        {
            let mut i: usize = 0;
            while i < j
                invariant
                    i <= j,
                    j < n,
                    n == self.entries.len(),
                    forall|a: int|
                        0 <= a < i ==> (#[trigger] self.entries@[a]).0@
                            != self.entries@[j as int].0@,
                decreases j - i,
            {
                if self.entries[i].0 == self.entries[j].0 {
                    assert(self.entries@[i as int].0@ == self.entries@[j as int].0@);
                    return false;
                }
                i += 1;
            }
            j += 1;
        }
        true
    }

    /// The number of parameters.
    pub fn len(&self) -> (n: usize)
        ensures
            n == self.entries@.len(),
            self.wf() ==> n == self@.len(),
    {
        proof {
            if self.wf() {
                lemma_entries_count(self.entries@);
            }
        }
        self.entries.len()
    }

    /// The value under `key`, if there is one.
    pub fn get(&self, key: &str) -> (r: Option<&Value>)
        requires
            self.wf(),
        ensures
            match r {
                Some(v) => self@.contains_key(key@) && self@[key@] == value_tree(*v),
                None => !self@.contains_key(key@),
            },
    {
        let wanted = key.to_owned();
        let mut i: usize = 0;
        while i < self.entries.len()
            invariant
                self.wf(),
                i <= self.entries.len(),
                wanted@ == key@,
                forall|j: int| 0 <= j < i ==> (#[trigger] self.entries@[j]).0@ != key@,
            decreases self.entries.len() - i,
        {
            if self.entries[i].0 == wanted {
                proof {
                    let s = self.entries@;
                    let c = entry_index(s, key@);
                    assert(s[i as int].0@ == key@);
                    assert(0 <= c < s.len() && s[c].0@ == key@);
                    assert(c == i);
                }
                return Some(&self.entries[i].1);
            }
            i += 1;
        }
        None
    }
}

/// A decoded request.
#[derive(Debug, Clone)]
pub struct JsonRpcRequest {
    pub jsonrpc: String,
    pub id: RequestId,
    pub method: String,
    pub params: Option<Params>,
}

/// The model of a request.
pub struct RequestView {
    pub jsonrpc: Seq<char>,
    pub id: IdView,
    pub method: Seq<char>,
    pub params: Option<Map<Seq<char>, JsonTree>>,
}

impl View for JsonRpcRequest {
    type V = RequestView;

    open spec fn view(&self) -> RequestView {
        RequestView {
            jsonrpc: self.jsonrpc@,
            id: self.id@,
            method: self.method@,
            params: match self.params {
                Some(p) => Some(p@),
                None => None,
            },
        }
    }
}

impl JsonRpcRequest {
    /// The parameter list, where there is one, holds every key once.
    pub open spec fn wf(&self) -> bool {
        match self.params {
            Some(p) => p.wf(),
            None => true,
        }
    }

    /// Whether the parameter list, where there is one, holds every key
    /// once.
    pub fn is_well_formed(&self) -> (r: bool)
        ensures
            r == self.wf(),
    {
        match &self.params {
            Some(p) => p.has_distinct_keys(),
            None => true,
        }
    }
}

/// A decoded success response.
#[derive(Debug, Clone)]
pub struct JsonRpcResponse {
    pub jsonrpc: String,
    pub id: RequestId,
    pub result: Value,
}

/// The model of a success response.
pub struct ResponseView {
    pub jsonrpc: Seq<char>,
    pub id: IdView,
    pub result: JsonTree,
}

impl View for JsonRpcResponse {
    type V = ResponseView;

    open spec fn view(&self) -> ResponseView {
        ResponseView { jsonrpc: self.jsonrpc@, id: self.id@, result: value_tree(self.result) }
    }
}

/// The body of an error response.
#[derive(Debug, Clone)]
pub struct ErrorData {
    pub code: i32,
    pub message: String,
    pub data: Option<Value>,
}

/// An error response.
#[derive(Debug, Clone)]
pub struct JsonRpcError {
    pub jsonrpc: String,
    pub id: RequestId,
    pub error: ErrorData,
}

} // verus!

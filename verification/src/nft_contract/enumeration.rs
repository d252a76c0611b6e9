use vstd::prelude::*;
use crate::paging::{page, page_bounds};
use crate::marketplace::enumeration::{from_or_zero, limit_or_ten, page_params};
use crate::nft::contract::owns;
use crate::nft_contract::contract::{Contract, JsonToken, is_json_token};

verus! {

/// The size of a page of an owner's tokens when the client gives none: no
/// token at all.
pub open spec fn limit_or_zero(limit: Option<u64>) -> usize {
    match limit {
        Some(l) => l as usize,
        None => 0,
    }
}

impl Contract {
    /// The ids of the tokens an account owns, in the order of its set.
    pub open spec fn token_ids_of(&self, account: Seq<char>) -> Seq<Seq<char>> {
        if self.tokens_per_owner@.contains_key(account) {
            self.tokens_per_owner@[account].keys()
        } else {
            Seq::empty()
        }
    }

    /// Builds the client view of the tokens at positions `s..e` of `ids`.
    fn tokens_json(&self, ids: &crate::table::LookupTable<String, ()>, s: usize, e: usize) -> (r: Vec<JsonToken>)
        requires
            self.wf(),
            ids.wf(),
            s <= e <= ids.keys().len(),
            forall|i: int| s <= i < e ==> #[trigger] self.tokens_by_id@.contains_key(ids.keys()[i]),
        ensures
            r@.len() == e - s,
            forall|i: int| 0 <= i < e - s ==> is_json_token(#[trigger] r@[i], *self, ids.keys()[s + i]),
    {
        let mut out: Vec<JsonToken> = Vec::new();
        let mut i = s;
        while i < e
            invariant
                self.wf(),
                s <= i <= e <= ids.keys().len(),
                forall|k: int| s <= k < e ==> #[trigger] self.tokens_by_id@.contains_key(ids.keys()[k]),
                out@.len() == i - s,
                forall|k: int| 0 <= k < i - s ==> is_json_token(#[trigger] out@[k], *self, ids.keys()[s + k]),
            decreases e - i,
        {
            let id = ids.key_at(i);
            match self.nft_token(id) {
                Some(j) => out.push(j),
                None => {
                    proof {
                        assert(self.tokens_by_id@.contains_key(ids.keys()[i as int]));
                    }
                },
            }
            i += 1;
        }
        out
    }

    /// A page of all tokens, in the order of the metadata table.
    pub fn nft_tokens(&self, from_index: Option<u128>, limit: Option<u64>) -> (r: Vec<JsonToken>)
        requires
            self.wf(),
        ensures
            ({
                let p = page(self.token_metadata_by_id.keys(), from_or_zero(from_index), limit_or_ten(limit));
                &&& r@.len() == p.len()
                &&& forall|i: int| 0 <= i < p.len() ==> is_json_token(#[trigger] r@[i], *self, p[i])
            }),
    {
        let (from, count) = page_params(from_index, limit);
        let table = &self.token_metadata_by_id;
        let (s, e) = page_bounds(table.len(), from, count);
        let mut out: Vec<JsonToken> = Vec::new();
        let mut i = s;
        while i < e
            invariant
                self.wf(),
                s <= i <= e <= table.keys().len(),
                table == &self.token_metadata_by_id,
                out@.len() == i - s,
                forall|k: int| 0 <= k < i - s ==> is_json_token(#[trigger] out@[k], *self, table.keys()[s + k]),
            decreases e - i,
        {
            let id = table.key_at(i);
            proof {
                table.lemma_view_at(i as int);
            }
            match self.nft_token(id) {
                Some(j) => out.push(j),
                None => {
                    proof {
                        assert(self.token_metadata_by_id@.dom().contains(table.keys()[i as int]));
                    }
                },
            }
            i += 1;
        }
        out
    }

    /// How many tokens an account owns.
    pub fn nft_supply_for_owner(&self, account_id: &String) -> (n: u128)
        requires
            self.wf(),
        ensures
            n == self.token_ids_of(account_id@).len(),
    {
        match self.tokens_per_owner.get(account_id) {
            Some(set) => set.len() as u128,
            None => 0,
        }
    }

    /// A page of the tokens an account owns, in the order of its set; the
    /// page is empty unless a limit is given.
    pub fn nft_tokens_for_owner(&self, account_id: &String, from_index: Option<u128>, limit: Option<u64>) -> (r: Vec<
        JsonToken,
    >)
        requires
            self.wf(),
        ensures
            ({
                let p = page(self.token_ids_of(account_id@), from_or_zero(from_index), limit_or_zero(limit));
                &&& r@.len() == p.len()
                &&& forall|i: int| 0 <= i < p.len() ==> is_json_token(#[trigger] r@[i], *self, p[i])
            }),
    {
        let set = match self.tokens_per_owner.get(account_id) {
            Some(set) => set,
            None => {
                return Vec::new();
            },
        };
        let from: usize = match from_index {
            Some(f) => f as usize,
            None => 0,
        };
        let count: usize = match limit {
            Some(l) => l as usize,
            None => 0,
        };
        let (s, e) = page_bounds(set.len(), from, count);
        proof {
            assert forall|i: int| s <= i < e implies #[trigger] self.tokens_by_id@.contains_key(set.keys()[i]) by {
                set.lemma_view_at(i);
                assert(owns(self.tokens_per_owner@, account_id@, set.keys()[i]));
            }
        }
        self.tokens_json(set, s, e)
    }
}

} // verus!

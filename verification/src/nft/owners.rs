use vstd::prelude::*;
use crate::table::{LookupTable, TableKey};
use crate::nft::contract::{owns, index_wf};
use crate::nft::errors::NftError;

verus! {

/// Records `token_id` under `account` in an owner index.
pub fn add_token_to_owner(
    index: &mut LookupTable<String, LookupTable<String, ()>>,
    account: &String,
    token_id: &String,
)
    requires
        index_wf(*old(index)),
    ensures
        index_wf(*final(index)),
        forall|o: Seq<char>, t: Seq<char>|
            #![trigger owns(final(index)@, o, t)]
            owns(final(index)@, o, t) <==> (owns(old(index)@, o, t) || (o == account@ && t == token_id@)),
        forall|o: Seq<char>| #[trigger] final(index)@.contains_key(o) <==> (old(index)@.contains_key(o) || o == account@),
{
    let ghost old_index = *index;
    let mut set = match index.remove(account) {
        Some(s) => s,
        None => LookupTable::new(),
    };
    set.insert(token_id.key_clone(), ());
    index.insert(account.key_clone(), set);
    proof {
        assert forall|o: Seq<char>| #[trigger] index@.contains_key(o) implies index@[o].wf() by {
            if o != account@ {
                assert(old_index@.contains_key(o));
            }
        }
        assert forall|o: Seq<char>, t: Seq<char>|
            #![trigger owns(index@, o, t)]
            owns(index@, o, t) <==> (owns(old_index@, o, t) || (o == account@ && t == token_id@)) by {
        }
    }
}

/// Removes `token_id` from what `account` owns in an owner index; an account
/// left with no tokens leaves the index. Refused when the account has no
/// entry.
pub fn remove_token_from_owner(
    index: &mut LookupTable<String, LookupTable<String, ()>>,
    account: &String,
    token_id: &String,
) -> (r: Result<(), NftError>)
    requires
        index_wf(*old(index)),
    ensures
        index_wf(*final(index)),
        !old(index)@.contains_key(account@) ==> r == Err::<(), NftError>(NftError::TokenNotOwned)
            && *final(index) == *old(index),
        old(index)@.contains_key(account@) ==> r is Ok,
        forall|o: Seq<char>, t: Seq<char>|
            #![trigger owns(final(index)@, o, t)]
            owns(final(index)@, o, t) <==> (owns(old(index)@, o, t) && !(o == account@ && t == token_id@)),
{
    let ghost old_index = *index;
    let mut set = match index.remove(account) {
        Some(s) => s,
        None => {
            return Err(NftError::TokenNotOwned);
        },
    };
    let ghost old_set = set;
    set.remove(token_id);
    let ghost new_set = set;
    if set.len() > 0 {
        index.insert(account.key_clone(), set);
    } else {
        proof {
            assert forall|t: Seq<char>| !new_set@.contains_key(t) by {
                if new_set@.contains_key(t) {
                    new_set.lemma_key_at(t);
                }
            }
        }
    }
    proof {
        assert(old_index@[account@] == old_set);
        assert forall|o: Seq<char>| #[trigger] index@.contains_key(o) implies index@[o].wf() by {
            if o != account@ {
                assert(old_index@.contains_key(o));
            }
        }
        assert forall|o: Seq<char>, t: Seq<char>|
            #![trigger owns(index@, o, t)]
            owns(index@, o, t) <==> (owns(old_index@, o, t) && !(o == account@ && t == token_id@)) by {
            if o == account@ {
                assert(new_set@ == old_set@.remove(token_id@));
            }
        }
    }
    Ok(())
}

} // verus!

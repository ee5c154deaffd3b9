//! Laws of the registry engine, stated over the spec-level transitions that
//! the executable operations are proved to implement.

use vstd::prelude::*;

use crate::contract::AMOUNT_FOR_TRANSACTION;
use crate::contract::payment_gate_matches;
use crate::contract::spec_create;
use crate::contract::spec_destroy;
use crate::contract::spec_receive;
use crate::contract::spec_search;
use crate::msg::RegistryError;
use crate::normalize::byte_len;
use crate::normalize::normalized;
use crate::state::RegistryV;

verus! {

/// One alias per owner: in a registry satisfying the index invariant, no
/// owner identity appears on two records.
pub proof fn lemma_one_alias_per_owner(s: RegistryV, k1: Seq<char>, k2: Seq<char>)
    requires
        s.inv(),
        s.aliases.contains_key(k1),
        s.aliases.contains_key(k2),
        s.aliases[k1].human_address == s.aliases[k2].human_address,
    ensures
        k1 == k2,
{
}

/// Uniqueness: after a successful creation, any second creation of the same
/// alias - under any spelling with the same normalized form, for any caller
/// and any avatar - fails with `AliasTaken`.
pub proof fn lemma_alias_uniqueness(
    s: RegistryV,
    from1: Seq<char>,
    alias1: Seq<char>,
    avatar1: Option<Seq<char>>,
    from2: Seq<char>,
    alias2: Seq<char>,
    avatar2: Option<Seq<char>>,
)
    requires
        spec_create(s, from1, alias1, avatar1) is Ok,
        normalized(alias2) == normalized(alias1),
    ensures
        spec_create(spec_create(s, from1, alias1, avatar1)->Ok_0, from2, alias2, avatar2)
            == Err::<RegistryV, RegistryError>(RegistryError::AliasTaken),
{
    let s1 = spec_create(s, from1, alias1, avatar1)->Ok_0;
    assert(s1.aliases.contains_key(normalized(alias2)));
}

/// Ownership round-trip: after a successful creation, a search by the alias
/// finds the creator as owner; the creator may destroy the alias, and a
/// search afterwards no longer finds it.
pub proof fn lemma_ownership_round_trip(
    s: RegistryV,
    from: Seq<char>,
    alias: Seq<char>,
    avatar: Option<Seq<char>>,
)
    requires
        spec_create(s, from, alias, avatar) is Ok,
    ensures
        ({
            let s1 = spec_create(s, from, alias, avatar)->Ok_0;
            &&& spec_search(s1, "alias"@, alias) matches Ok(att) && att.address == from
            &&& spec_destroy(s1, from, alias) is Ok
            &&& spec_search(spec_destroy(s1, from, alias)->Ok_0, "alias"@, alias)
                == Err::<crate::msg::AliasAttributesV, RegistryError>(RegistryError::AliasNotFound)
        }),
{
    reveal_strlit("alias");
    reveal_strlit("address");
    assert("alias"@.len() == 5);
    assert("address"@.len() == 7);
    let s1 = spec_create(s, from, alias, avatar)->Ok_0;
    assert(s1.aliases.contains_key(normalized(alias)));
    let s2 = spec_destroy(s1, from, alias)->Ok_0;
    assert(!s2.aliases.contains_key(normalized(alias)));
}

/// Authorization: a caller other than the owner cannot destroy an alias -
/// the attempt fails with `Unauthorized` - and the record is unaffected: a
/// search still finds it with its owner.
pub proof fn lemma_destroy_authorization(
    s: RegistryV,
    from: Seq<char>,
    alias: Seq<char>,
    avatar: Option<Seq<char>>,
    caller: Seq<char>,
    alias2: Seq<char>,
)
    requires
        spec_create(s, from, alias, avatar) is Ok,
        caller != from,
        normalized(alias2) == normalized(alias),
    ensures
        ({
            let s1 = spec_create(s, from, alias, avatar)->Ok_0;
            &&& spec_destroy(s1, caller, alias2)
                == Err::<RegistryV, RegistryError>(RegistryError::Unauthorized)
            &&& spec_search(s1, "alias"@, alias2) matches Ok(att) && att.address == from
        }),
{
    reveal_strlit("alias");
    reveal_strlit("address");
    assert("alias"@.len() == 5);
    assert("address"@.len() == 7);
    let s1 = spec_create(s, from, alias, avatar)->Ok_0;
    assert(s1.aliases.contains_key(normalized(alias2)));
    assert(s1.aliases[normalized(alias2)].human_address == from);
}

/// Normalization: a search by alias depends on the searched string only
/// through its normalized form, the same form every write uses as key.
pub proof fn lemma_search_normalization(s: RegistryV, alias1: Seq<char>, alias2: Seq<char>)
    requires
        normalized(alias1) == normalized(alias2),
    ensures
        spec_search(s, "alias"@, alias1) == spec_search(s, "alias"@, alias2),
{
    reveal_strlit("alias");
    reveal_strlit("address");
    assert("alias"@.len() == 5);
    assert("address"@.len() == 7);
}

/// Size boundary: a creation fails with `TooLong` exactly when the
/// normalized alias's byte length exceeds the configured cap; the cap
/// itself is still allowed.
pub proof fn lemma_size_boundary(
    s: RegistryV,
    from: Seq<char>,
    alias: Seq<char>,
    avatar: Option<Seq<char>>,
)
    ensures
        spec_create(s, from, alias, avatar) == Err::<RegistryV, RegistryError>(
            RegistryError::TooLong,
        ) <==> byte_len(normalized(alias)) > s.config.max_alias_byte_length,
{
}

/// Payment gate: a notification from any address other than the configured
/// token contract is rejected with `WrongToken`, whatever the amount and
/// payload; an amount other than the fixed price is rejected with
/// `WrongAmount` even from the token contract itself. In neither case is a
/// creation attempted.
pub proof fn lemma_payment_gate(
    s: RegistryV,
    sender: Seq<char>,
    from: Seq<char>,
    amount: u128,
    alias: Seq<char>,
    avatar: Option<Seq<char>>,
)
    ensures
        !payment_gate_matches(s.config, sender) ==> spec_receive(s, sender, from, amount, alias, avatar)
            == Err::<RegistryV, RegistryError>(RegistryError::WrongToken),
        payment_gate_matches(s.config, sender) && amount != AMOUNT_FOR_TRANSACTION
            ==> spec_receive(s, sender, from, amount, alias, avatar)
            == Err::<RegistryV, RegistryError>(RegistryError::WrongAmount),
{
}

} // verus!

//! What is asked of a system chain, what its answers mean, and the calls that are
//! submitted to it.
use crate::account::{address_meaning, decode_address, decoded_view, AccountId32};
use crate::bonds::{
    find_lowest_deposit, first_of, lemma_first_of, lemma_first_of_meaning, lowest_deposit,
};
use crate::calls::{bytes_value, is_bytes, number_value, proxied_args, DynamicCall, StorageQuery};
use crate::config::{Network, SystemChain};
use crate::decode::{
    account_list, account_views, candidate_list, candidate_views, free_balance, parse_account_list,
    parse_candidate_list, parse_free_balance, parse_u128, parse_u32, Candidate, CandidateInfo,
    ParseError,
};
use crate::error::CollatorError;
use crate::text::{decimal, decimal_text, law_numerals_read_back, number_of};
use crate::value::{as_u128, Primitive, Value, ValueDef};
use vstd::prelude::*;

verus! {

/// Collator status on a chain.
#[derive(Debug, Clone, Copy, PartialEq, Eq, Structural)]
pub enum CollatorStatus {
    /// Account is in the invulnerables list
    Invulnerable,
    /// Account is a registered candidate with the given deposit
    Candidate { deposit: u128 },
    /// Account is not a collator
    NotCollator,
}

impl CollatorStatus {
    /// The status as it is shown to a developer.
    pub open spec fn spec_debug(self) -> Seq<char> {
        match self {
            CollatorStatus::Invulnerable => "Invulnerable"@,
            CollatorStatus::Candidate { deposit } => "Candidate { deposit: "@ + decimal(
                deposit as nat,
            ) + " }"@,
            CollatorStatus::NotCollator => "NotCollator"@,
        }
    }

    /// The status as it is shown to a developer.
    pub fn debug_text(&self) -> (r: String)
        ensures
            r@ == self.spec_debug(),
    {
        match self {
            CollatorStatus::Invulnerable => "Invulnerable".to_string(),
            CollatorStatus::Candidate { deposit } => {
                let mut r = "Candidate { deposit: ".to_string();
                r.append(decimal_text(*deposit).as_str());
                r.append(" }");
                r
            },
            CollatorStatus::NotCollator => "NotCollator".to_string(),
        }
    }
}

/// A system chain of a network, as it is named to the operator.
pub struct ChainClient {
    network: Network,
    chain: SystemChain,
    chain_name: String,
}

impl View for ChainClient {
    type V = (Network, SystemChain);

    closed spec fn view(&self) -> (Network, SystemChain) {
        (self.network, self.chain)
    }
}

impl ChainClient {
    #[verifier::type_invariant]
    spec fn is_named_after_its_chain(self) -> bool {
        self.chain_name@ == self.chain.spec_display_name(self.network)
    }

    /// The client of a chain.
    pub fn new(network: Network, chain: SystemChain) -> (r: ChainClient)
        ensures
            r@ == (network, chain),
    {
        let chain_name = chain.display_name(network);
        ChainClient { network, chain, chain_name }
    }

    /// Get the chain name for display/logging.
    pub fn chain_name(&self) -> (r: &str)
        ensures
            r@ == self@.1.spec_display_name(self@.0),
    {
        proof {
            use_type_invariant(self);
        }
        self.chain_name.as_str()
    }

    /// Get the network.
    pub fn network(&self) -> (r: Network)
        ensures
            r == self@.0,
    {
        self.network
    }

    /// Get the chain.
    pub fn chain(&self) -> (r: SystemChain)
        ensures
            r == self@.1,
    {
        self.chain
    }

    /// Parse an SS58 address to an account.
    pub fn parse_address(&self, address: &str) -> (r: Result<AccountId32, CollatorError>)
        ensures
            parsed_address(address@, address_meaning(address@), r),
    {
        address_result(address, decode_address(address))
    }

    /// Asks for the invulnerable collators.
    pub fn invulnerables_query(&self) -> (r: StorageQuery)
        ensures
            asks_for(r, "CollatorSelection"@, "Invulnerables"@),
            r.keys@.len() == 0,
    {
        StorageQuery { pallet: "CollatorSelection", entry: "Invulnerables", keys: Vec::new() }
    }

    /// Asks for the candidate collators.
    pub fn candidates_query(&self) -> (r: StorageQuery)
        ensures
            asks_for(r, "CollatorSelection"@, "CandidateList"@),
            r.keys@.len() == 0,
    {
        StorageQuery { pallet: "CollatorSelection", entry: "CandidateList", keys: Vec::new() }
    }

    /// Asks for the candidacy bond.
    pub fn candidacy_bond_query(&self) -> (r: StorageQuery)
        ensures
            asks_for(r, "CollatorSelection"@, "CandidacyBond"@),
            r.keys@.len() == 0,
    {
        StorageQuery { pallet: "CollatorSelection", entry: "CandidacyBond", keys: Vec::new() }
    }

    /// Asks for the desired number of candidates.
    pub fn desired_candidates_query(&self) -> (r: StorageQuery)
        ensures
            asks_for(r, "CollatorSelection"@, "DesiredCandidates"@),
            r.keys@.len() == 0,
    {
        StorageQuery { pallet: "CollatorSelection", entry: "DesiredCandidates", keys: Vec::new() }
    }

    /// Asks for the balances of an account.
    pub fn account_query(&self, account: &AccountId32) -> (r: StorageQuery)
        ensures
            asks_for(r, "System"@, "Account"@),
            r.keys@.len() == 1,
            is_bytes(r.keys@[0], account@),
    {
        let mut keys: Vec<Value<()>> = Vec::new();
        keys.push(bytes_value(&account.0));
        StorageQuery { pallet: "System", entry: "Account", keys }
    }

    /// Asks for the keys of the Aura authorities.
    pub fn authorities_query(&self) -> (r: StorageQuery)
        ensures
            asks_for(r, "Aura"@, "Authorities"@),
            r.keys@.len() == 0,
    {
        StorageQuery { pallet: "Aura", entry: "Authorities", keys: Vec::new() }
    }

    /// The invulnerable collators, from what is stored of them.
    pub fn get_invulnerables<T>(&self, stored: Option<&Value<T>>) -> (r: Vec<AccountId32>)
        ensures
            account_views(r@) == match stored {
                Some(v) => account_list(*v),
                None => Seq::empty(),
            },
    {
        match stored {
            Some(value) => parse_account_list(value),
            None => Vec::new(),
        }
    }

    /// The candidate collators with their deposits, from what is stored of them.
    pub fn get_candidates<T>(&self, stored: Option<&Value<T>>) -> (r: Vec<CandidateInfo>)
        ensures
            candidate_views(r@) == match stored {
                Some(v) => candidate_list(*v),
                None => Seq::empty(),
            },
    {
        match stored {
            Some(value) => parse_candidate_list(value),
            None => Vec::new(),
        }
    }

    /// The candidacy bond, from what is stored of it.
    pub fn get_candidacy_bond<'a, T>(&self, stored: Option<&'a Value<T>>) -> (r: Result<
        u128,
        ReadError<'a, T>,
    >)
        ensures
            r == match stored {
                None => Err(ReadError::CandidacyBondNotFound),
                Some(v) => match as_u128(*v) {
                    Some(n) => Ok(n),
                    None => Err(ReadError::Parse(ParseError::U128(v))),
                },
            },
    {
        match stored {
            None => Err(ReadError::CandidacyBondNotFound),
            Some(value) => match parse_u128(value) {
                Ok(n) => Ok(n),
                Err(e) => Err(ReadError::Parse(e)),
            },
        }
    }

    /// The desired number of candidates, from what is stored of it.
    pub fn get_desired_candidates<'a, T>(&self, stored: Option<&'a Value<T>>) -> (r: Result<
        u32,
        ReadError<'a, T>,
    >)
        ensures
            r == match stored {
                None => Err(ReadError::DesiredCandidatesNotFound),
                Some(v) => match as_u128(*v) {
                    Some(n) => Ok(n as u32),
                    None => Err(ReadError::Parse(ParseError::U32(v))),
                },
            },
    {
        match stored {
            None => Err(ReadError::DesiredCandidatesNotFound),
            Some(value) => match parse_u32(value) {
                Ok(n) => Ok(n),
                Err(e) => Err(ReadError::Parse(e)),
            },
        }
    }

    /// The free balance of an account, from what is stored of it: zero where
    /// nothing is.
    pub fn get_free_balance<'a, T>(&self, stored: Option<&'a Value<T>>) -> (r: Result<
        u128,
        ParseError<'a, T>,
    >)
        ensures
            r == match stored {
                Some(v) => free_balance(v),
                None => Ok(0),
            },
    {
        match stored {
            Some(value) => parse_free_balance(value),
            None => Ok(0),
        }
    }

    /// The lowest deposit among the candidates.
    pub fn get_minimum_candidate_deposit(&self, candidates: &Vec<CandidateInfo>) -> (r: Option<
        u128,
    >)
        ensures
            r == lowest_deposit(candidate_views(candidates@)),
    {
        find_lowest_deposit(candidates)
    }

    /// The status of an account as far as the invulnerable collators decide it.
    pub fn status_from_invulnerables(
        &self,
        account: &AccountId32,
        invulnerables: &Vec<AccountId32>,
    ) -> (r: Option<CollatorStatus>)
        ensures
            r == if account_views(invulnerables@).contains(account@) {
                Some(CollatorStatus::Invulnerable)
            } else {
                None
            },
    {
        let ghost views = account_views(invulnerables@);
        let mut i: usize = 0;
        while i < invulnerables.len()
            invariant
                i <= invulnerables@.len(),
                views == account_views(invulnerables@),
                forall|j: int| 0 <= j < i ==> #[trigger] views[j] != account@,
            decreases invulnerables@.len() - i,
        {
            assert(views[i as int] == invulnerables@[i as int]@);
            if invulnerables[i].same(account) {
                return Some(CollatorStatus::Invulnerable);
            }
            i = i + 1;
        }
        None
    }

    /// The status of an account, from the invulnerable and the candidate collators.
    pub fn get_collator_status(
        &self,
        account: &AccountId32,
        invulnerables: &Vec<AccountId32>,
        candidates: &Vec<CandidateInfo>,
    ) -> (r: CollatorStatus)
        ensures
            r == collator_status(
                account@,
                account_views(invulnerables@),
                candidate_views(candidates@),
            ),
    {
        if let Some(status) = self.status_from_invulnerables(account, invulnerables) {
            return status;
        }
        let ghost views = candidate_views(candidates@);
        let mut i: usize = 0;
        while i < candidates.len()
            invariant
                i <= candidates@.len(),
                views == candidate_views(candidates@),
                !account_views(invulnerables@).contains(account@),
                forall|j: int| 0 <= j < i ==> (#[trigger] views[j]).who != account@,
            decreases candidates@.len() - i,
        {
            assert(views[i as int] == candidates@[i as int]@);
            if candidates[i].who.same(account) {
                proof {
                    lemma_first_of(views, account@, i as int);
                }
                return CollatorStatus::Candidate { deposit: candidates[i].deposit };
            }
            i = i + 1;
        }
        proof {
            lemma_first_of(views, account@, views.len() as int);
        }
        CollatorStatus::NotCollator
    }

    /// The call that registers its caller as a candidate.
    pub fn generate_register_call_data(&self) -> (r: DynamicCall)
        ensures
            is_register_call(r),
    {
        DynamicCall {
            pallet: "CollatorSelection",
            name: "register_as_candidate",
            args: Vec::new(),
        }
    }

    /// The call that sets its caller's bond.
    pub fn generate_registration_call_data(&self, new_bond: u128) -> (r: DynamicCall)
        ensures
            is_bond_call(r, new_bond),
    {
        let mut args: Vec<Value<()>> = Vec::new();
        args.push(number_value(new_bond));
        DynamicCall { pallet: "CollatorSelection", name: "update_bond", args }
    }

    /// The call that registers a collator as a candidate, through a proxy.
    pub fn register_as_candidate_via_proxy(&self, collator: &AccountId32) -> (r: DynamicCall)
        ensures
            registers_via_proxy(r, collator@),
    {
        self.generate_register_call_data().via_proxy(collator)
    }

    /// The call that sets a candidate's bond, through a proxy.
    pub fn update_bond_via_proxy(&self, collator: &AccountId32, new_bond: u128) -> (r: DynamicCall)
        ensures
            bonds_via_proxy(r, collator@, new_bond),
    {
        self.generate_registration_call_data(new_bond).via_proxy(collator)
    }

    /// The call that takes the slot of a candidate with a lower bond, through a
    /// proxy.
    pub fn take_candidate_slot_via_proxy(
        &self,
        collator: &AccountId32,
        deposit: u128,
        target: &AccountId32,
    ) -> (r: DynamicCall)
        ensures
            proxied_args(r, collator@, "CollatorSelection"@, "take_candidate_slot"@) matches Some(
                args,
            ) && args.len() == 2 && as_u128(args[0]) == Some(deposit) && is_bytes(args[1], target@),
    {
        let mut args: Vec<Value<()>> = Vec::new();
        args.push(number_value(deposit));
        args.push(bytes_value(&target.0));
        let inner = DynamicCall { pallet: "CollatorSelection", name: "take_candidate_slot", args };
        inner.via_proxy(collator)
    }
}

/// Whether a call registers its caller as a candidate.
pub open spec fn is_register_call(call: DynamicCall) -> bool {
    call.pallet@ == "CollatorSelection"@ && call.name@ == "register_as_candidate"@
        && call.args@.len() == 0
}

/// Whether a call sets its caller's bond.
pub open spec fn is_bond_call(call: DynamicCall, new_bond: u128) -> bool {
    call.pallet@ == "CollatorSelection"@ && call.name@ == "update_bond"@ && call.args@.len() == 1
        && as_u128(call.args@[0]) == Some(new_bond)
}

/// Whether a call registers a collator as a candidate, through a proxy that may
/// not transfer funds.
pub open spec fn registers_via_proxy(call: DynamicCall, collator: Seq<u8>) -> bool {
    match proxied_args(call, collator, "CollatorSelection"@, "register_as_candidate"@) {
        Some(args) => args.len() == 0,
        None => false,
    }
}

/// Whether a call sets a collator's bond, through a proxy that may not transfer
/// funds.
pub open spec fn bonds_via_proxy(call: DynamicCall, collator: Seq<u8>, new_bond: u128) -> bool {
    match proxied_args(call, collator, "CollatorSelection"@, "update_bond"@) {
        Some(args) => args.len() == 1 && as_u128(args[0]) == Some(new_bond),
        None => false,
    }
}

/// Whether a query asks for an entry of a pallet.
pub open spec fn asks_for(query: StorageQuery, pallet: Seq<char>, entry: Seq<char>) -> bool {
    query.pallet@ == pallet && query.entry@ == entry
}

/// Why a stored number could not be had.
#[derive(Debug)]
pub enum ReadError<'a, T> {
    /// "CandidacyBond not found"
    CandidacyBondNotFound,
    /// "DesiredCandidates not found"
    DesiredCandidatesNotFound,
    /// What is stored is no number
    Parse(ParseError<'a, T>),
}

/// The status of an account: an invulnerable collator before all, else the first
/// candidate that is the account.
pub open spec fn collator_status(
    account: Seq<u8>,
    invulnerables: Seq<Seq<u8>>,
    candidates: Seq<Candidate>,
) -> CollatorStatus {
    let k = first_of(candidates, account);
    if invulnerables.contains(account) {
        CollatorStatus::Invulnerable
    } else if k < candidates.len() {
        CollatorStatus::Candidate { deposit: candidates[k].deposit }
    } else {
        CollatorStatus::NotCollator
    }
}

/// What parsing an address gives, where decoding it gives `decoded`: the account,
/// or an error that names the address and the reason.
pub open spec fn parsed_address(
    address: Seq<char>,
    decoded: Result<Seq<u8>, Seq<char>>,
    r: Result<AccountId32, CollatorError>,
) -> bool {
    match decoded {
        Ok(bytes) => r matches Ok(account) && account@ == bytes,
        Err(reason) => r matches Err(CollatorError::InvalidAddress(text)) && text@ == address
            + ": "@ + reason,
    }
}

/// The account of an address, or the error that names the address.
pub fn address_result(address: &str, decoded: Result<AccountId32, String>) -> (r: Result<
    AccountId32,
    CollatorError,
>)
    ensures
        parsed_address(address@, decoded_view(decoded), r),
{
    match decoded {
        Ok(account) => Ok(account),
        Err(reason) => {
            let mut text = address.to_string();
            text.append(": ");
            text.append(reason.as_str());
            Err(CollatorError::InvalidAddress(text))
        },
    }
}

/// An account among the invulnerable collators is one of them, whatever else it is;
/// else it is a candidate exactly where it is listed as one, with the deposit that
/// is listed first.
pub proof fn law_status_of_an_account(
    account: Seq<u8>,
    invulnerables: Seq<Seq<u8>>,
    candidates: Seq<Candidate>,
)
    ensures
        match collator_status(account, invulnerables, candidates) {
            CollatorStatus::Invulnerable => exists|i: int|
                0 <= i < invulnerables.len() && #[trigger] invulnerables[i] == account,
            CollatorStatus::Candidate { deposit } => (forall|i: int|
                0 <= i < invulnerables.len() ==> #[trigger] invulnerables[i] != account) && (exists|
                k: int,
            |
                0 <= k < candidates.len() && (#[trigger] candidates[k]).who == account
                    && candidates[k].deposit == deposit && (forall|j: int|
                    0 <= j < k ==> (#[trigger] candidates[j]).who != account)),
            CollatorStatus::NotCollator => (forall|i: int|
                0 <= i < invulnerables.len() ==> #[trigger] invulnerables[i] != account) && (forall|
                j: int,
            |
                0 <= j < candidates.len() ==> (#[trigger] candidates[j]).who != account),
        },
{
    lemma_first_of_meaning(candidates, account);
}

/// The call that registers a candidate is `register_as_candidate` of the collator
/// selection, without arguments, and the one that sets a bond is `update_bond` with
/// the bond alone; each is made for the collator through a proxy that may not
/// transfer funds.
pub proof fn law_calls_of_the_collator_selection(
    call: DynamicCall,
    collator: Seq<u8>,
    bond: u128,
)
    ensures
        is_register_call(call) ==> call.pallet@ == "CollatorSelection"@ && call.name@
            == "register_as_candidate"@ && call.args@.len() == 0,
        is_bond_call(call, bond) ==> call.pallet@ == "CollatorSelection"@ && call.name@
            == "update_bond"@ && call.args@.len() == 1 && call.args@[0].value == ValueDef::<
            (),
        >::Primitive(Primitive::U128(bond)),
        registers_via_proxy(call, collator) ==> proxied_args(
            call,
            collator,
            "CollatorSelection"@,
            "register_as_candidate"@,
        ) == Some(Seq::<Value<()>>::empty()),
        bonds_via_proxy(call, collator, bond) ==> exists|arg: Value<()>|
            #[trigger] arg.value == ValueDef::<()>::Primitive(Primitive::U128(bond))
                && proxied_args(call, collator, "CollatorSelection"@, "update_bond"@) == Some(
                seq![arg],
            ),
{
    if registers_via_proxy(call, collator) {
        let args = proxied_args(call, collator, "CollatorSelection"@, "register_as_candidate"@)->0;
        assert(args =~= Seq::empty());
    }
    if bonds_via_proxy(call, collator, bond) {
        let args = proxied_args(call, collator, "CollatorSelection"@, "update_bond"@)->0;
        assert(args =~= seq![args[0]]);
        assert(args[0].value == ValueDef::<()>::Primitive(Primitive::U128(bond)));
    }
}

/// An address that is decoded gives its account and no other; one that is not gives
/// an error that tells the address and then the reason.
pub proof fn law_addresses_give_accounts_or_reasons(
    address: Seq<char>,
    decoded: Result<Seq<u8>, Seq<char>>,
    r: Result<AccountId32, CollatorError>,
)
    requires
        parsed_address(address, decoded, r),
    ensures
        r is Ok <==> decoded is Ok,
        decoded is Ok ==> r->Ok_0@ == decoded->Ok_0,
        decoded is Err ==> (r->Err_0 matches CollatorError::InvalidAddress(text)
            && address.is_prefix_of(text@) && decoded->Err_0.is_suffix_of(text@) && text@.len()
            == address.len() + 2 + decoded->Err_0.len() && text@[address.len() as int] == ':'
            && text@[address.len() + 1int] == ' '),
{
    reveal_strlit(": ");
    if decoded is Err {
        let text = r->Err_0->InvalidAddress_0@;
        let reason = decoded->Err_0;
        assert(text =~= address + ": "@ + reason);
        assert(text.subrange(text.len() - reason.len(), text.len() as int) =~= reason);
    }
}

/// Two statuses that are shown alike are the same, to the deposit.
pub proof fn law_statuses_are_shown_apart(a: CollatorStatus, b: CollatorStatus)
    ensures
        a.spec_debug() == b.spec_debug() ==> a == b,
        a is Invulnerable ==> a.spec_debug() == "Invulnerable"@,
        a is NotCollator ==> a.spec_debug() == "NotCollator"@,
        a matches CollatorStatus::Candidate { deposit } ==> "Candidate { deposit: "@.is_prefix_of(
            a.spec_debug(),
        ) && " }"@.is_suffix_of(a.spec_debug()) && number_of(
            a.spec_debug().subrange(21, a.spec_debug().len() - 2),
        ) == deposit,
{
    reveal_strlit("Invulnerable");
    reveal_strlit("NotCollator");
    reveal_strlit("Candidate { deposit: ");
    reveal_strlit(" }");
    let x = a.spec_debug();
    let y = b.spec_debug();
    if let CollatorStatus::Candidate { deposit } = a {
        let numeral = decimal(deposit as nat);
        assert(x.take(21) =~= "Candidate { deposit: "@);
        assert(x.subrange(x.len() - 2, x.len() as int) =~= " }"@);
        assert(x.subrange(21, x.len() - 2) =~= numeral);
        law_numerals_read_back(deposit as nat);
    }
    if let CollatorStatus::Candidate { deposit } = b {
        let numeral = decimal(deposit as nat);
        assert(y.subrange(21, y.len() - 2) =~= numeral);
        law_numerals_read_back(deposit as nat);
    }
    if x == y {
        assert(x[0] == y[0]);
        assert(x[1] == y[1]);
    }
}

} // verus!

//! What is shown to the operator: the results of monitoring, and how the collator
//! stands on each chain.
use crate::account::{ss58_encoded, AccountId32};
use crate::bonds::{
    find_highest_deposit, find_lowest_bond, highest_deposit, law_highest_deposit, law_lowest_bond,
    lowest_bond,
};
use crate::chain_client::CollatorStatus;
use crate::config::{chain_supports_proxy, supports_proxy, Network, SystemChain};
use crate::decode::{account_views, candidate_views, Candidate, CandidateInfo};
use crate::monitor::{available_for_bond, decision, MonitorResult, MonitorStatus};
use crate::text::{decimal, decimal_text};
use vstd::prelude::*;

verus! {

/// How the outcome of monitoring a chain is shown.
pub open spec fn outcome_text(status: MonitorStatus) -> Seq<char> {
    match status {
        MonitorStatus::AlreadyCollator(s) => "✓ Already collator: "@ + s.spec_debug(),
        MonitorStatus::RegisteredAsCandidate { bond, tx_hash } => "✓ Registered with bond "@
            + decimal(bond as nat) + " (tx: "@ + tx_hash@ + ")"@,
        MonitorStatus::UpdatedBond { old_bond, new_bond, tx_hash } => "✓ Updated bond "@ + decimal(
            old_bond as nat,
        ) + " → "@ + decimal(new_bond as nat) + " (tx: "@ + tx_hash@ + ")"@,
        MonitorStatus::InsufficientFunds { available, required } =>
        "✗ Insufficient funds: have "@ + decimal(available as nat) + ", need "@ + decimal(
            required as nat,
        ),
        MonitorStatus::CannotCompete { available, lowest_candidate, needed } =>
        "✗ Cannot compete: have "@ + decimal(available as nat) + ", lowest candidate "@ + decimal(
            lowest_candidate as nat,
        ) + ", need "@ + decimal(needed as nat) + " more"@,
        MonitorStatus::ManualActionRequired { reason, current_status } =>
        "🔧 Manual action required: "@ + reason@ + " (current: "@ + current_status.spec_debug()
            + ")"@,
        MonitorStatus::Error(e) => "✗ Error: "@ + e@,
        MonitorStatus::Skipped(reason) => "- Skipped: "@ + reason@,
    }
}

/// How the outcome of monitoring a chain is shown.
pub fn outcome_line(status: &MonitorStatus) -> (r: String)
    ensures
        r@ == outcome_text(*status),
{
    match status {
        MonitorStatus::AlreadyCollator(s) => {
            let mut r = "✓ Already collator: ".to_string();
            r.append(s.debug_text().as_str());
            r
        },
        MonitorStatus::RegisteredAsCandidate { bond, tx_hash } => {
            let mut r = "✓ Registered with bond ".to_string();
            r.append(decimal_text(*bond).as_str());
            r.append(" (tx: ");
            r.append(tx_hash.as_str());
            r.append(")");
            r
        },
        MonitorStatus::UpdatedBond { old_bond, new_bond, tx_hash } => {
            let mut r = "✓ Updated bond ".to_string();
            r.append(decimal_text(*old_bond).as_str());
            r.append(" → ");
            r.append(decimal_text(*new_bond).as_str());
            r.append(" (tx: ");
            r.append(tx_hash.as_str());
            r.append(")");
            r
        },
        MonitorStatus::InsufficientFunds { available, required } => {
            let mut r = "✗ Insufficient funds: have ".to_string();
            r.append(decimal_text(*available).as_str());
            r.append(", need ");
            r.append(decimal_text(*required).as_str());
            r
        },
        MonitorStatus::CannotCompete { available, lowest_candidate, needed } => {
            let mut r = "✗ Cannot compete: have ".to_string();
            r.append(decimal_text(*available).as_str());
            r.append(", lowest candidate ");
            r.append(decimal_text(*lowest_candidate).as_str());
            r.append(", need ");
            r.append(decimal_text(*needed).as_str());
            r.append(" more");
            r
        },
        MonitorStatus::ManualActionRequired { reason, current_status } => {
            let mut r = "🔧 Manual action required: ".to_string();
            r.append(reason.as_str());
            r.append(" (current: ");
            r.append(current_status.debug_text().as_str());
            r.append(")");
            r
        },
        MonitorStatus::Error(e) => {
            let mut r = "✗ Error: ".to_string();
            r.append(e.as_str());
            r
        },
        MonitorStatus::Skipped(reason) => {
            let mut r = "- Skipped: ".to_string();
            r.append(reason.as_str());
            r
        },
    }
}

/// The lines of the results, in order.
pub open spec fn result_lines(results: Seq<MonitorResult>) -> Seq<char>
    decreases results.len(),
{
    if results.len() == 0 {
        Seq::empty()
    } else {
        result_lines(results.drop_last()) + "  "@ + results.last().chain_name@ + ": "@
            + outcome_text(results.last().status) + "\n"@
    }
}

/// The results of monitoring, as they are shown.
pub open spec fn results_text(results: Seq<MonitorResult>) -> Seq<char> {
    "\n=== Monitoring Results ===\n\n"@ + result_lines(results) + "\n"@
}

/// The results of monitoring, as they are shown.
pub fn print_results(results: &Vec<MonitorResult>) -> (r: String)
    ensures
        r@ == results_text(results@),
{
    let mut lines = String::new();
    let mut i: usize = 0;
    assert(lines@ =~= result_lines(results@.take(0)));
    while i < results.len()
        invariant
            i <= results@.len(),
            lines@ == result_lines(results@.take(i as int)),
        decreases results@.len() - i,
    {
        proof {
            assert(results@.take(i + 1).drop_last() =~= results@.take(i as int));
            assert(results@.take(i + 1).last() == results@[i as int]);
        }
        lines.append("  ");
        lines.append(results[i].chain_name.as_str());
        lines.append(": ");
        lines.append(outcome_line(&results[i].status).as_str());
        lines.append("\n");
        i = i + 1;
    }
    assert(results@.take(i as int) =~= results@);
    let mut r = "\n=== Monitoring Results ===\n\n".to_string();
    r.append(lines.as_str());
    r.append("\n");
    r
}

/// Whether an error occurred on any chain.
pub fn has_errors(results: &Vec<MonitorResult>) -> (r: bool)
    ensures
        r <==> exists|i: int| 0 <= i < results@.len() && (#[trigger] results@[i]).status is Error,
{
    let mut i: usize = 0;
    while i < results.len()
        invariant
            i <= results@.len(),
            forall|j: int| 0 <= j < i ==> !((#[trigger] results@[j]).status is Error),
        decreases results@.len() - i,
    {
        if let MonitorStatus::Error(_) = &results[i].status {
            assert(results@[i as int].status is Error);
            return true;
        }
        i = i + 1;
    }
    false
}

/// A part of a report: a text, or an amount of the network's token in its smallest
/// unit.
#[derive(Debug)]
pub enum ReportPart {
    Text(String),
    Amount(u128),
}

/// The view of a part of a report.
pub enum Part {
    Text(Seq<char>),
    Amount(u128),
}

impl View for ReportPart {
    type V = Part;

    open spec fn view(&self) -> Part {
        match self {
            ReportPart::Text(s) => Part::Text(s@),
            ReportPart::Amount(n) => Part::Amount(*n),
        }
    }
}

/// The views of the parts of a report.
pub open spec fn part_views(parts: Seq<ReportPart>) -> Seq<Part> {
    parts.map_values(|p: ReportPart| p@)
}

/// A text in a report.
pub open spec fn says(text: Seq<char>) -> Seq<Part> {
    seq![Part::Text(text)]
}

/// An amount between two texts.
pub open spec fn shows(before: Seq<char>, amount: u128, after: Seq<char>) -> Seq<Part> {
    seq![Part::Text(before), Part::Amount(amount), Part::Text(after)]
}

fn say(parts: &mut Vec<ReportPart>, text: String)
    ensures
        part_views(final(parts)@) == part_views(old(parts)@) + says(text@),
{
    parts.push(ReportPart::Text(text));
    assert(part_views(parts@) =~= part_views(old(parts)@) + says(text@));
}

fn show(parts: &mut Vec<ReportPart>, before: String, amount: u128, after: String)
    ensures
        part_views(final(parts)@) == part_views(old(parts)@) + shows(before@, amount, after@),
{
    parts.push(ReportPart::Text(before));
    parts.push(ReportPart::Amount(amount));
    parts.push(ReportPart::Text(after));
    assert(part_views(parts@) =~= part_views(old(parts)@) + shows(before@, amount, after@));
}

/// The mark of a chain on which only the operator may act.
pub open spec fn read_only_marker(chain: SystemChain) -> Seq<char> {
    if supports_proxy(chain) {
        Seq::empty()
    } else {
        " [READ-ONLY - no proxy support]"@
    }
}

/// The mark of the collator's own account.
pub open spec fn own_marker(own: bool) -> Seq<char> {
    if own {
        " <-- YOU"@
    } else {
        Seq::empty()
    }
}

fn own_mark(own: bool) -> (r: String)
    ensures
        r@ == own_marker(own),
{
    if own {
        " <-- YOU".to_string()
    } else {
        let r = String::new();
        assert(r@ =~= Seq::<char>::empty());
        r
    }
}

/// The reserve of a network, as it is told.
pub open spec fn reserve_text(network: Network) -> Seq<char> {
    match network {
        Network::Polkadot => " DOT (after 1 DOT reserve)\n"@,
        Network::Kusama => " KSM (after 0.1 KSM reserve)\n"@,
    }
}

/// What a bond has to be to be above another, where there is another.
pub open spec fn hurdle(goal: Seq<char>, other: Option<u128>, network: Network) -> Seq<Part> {
    match other {
        Some(bond) => shows(
            "      - To "@ + goal + ": "@,
            (bond + 1) as u128,
            " "@ + network.spec_symbol() + "\n"@,
        ),
        None => Seq::empty(),
    }
}

/// Whether what is available is above another bond, and what is missing if not.
pub open spec fn verdict(
    goal: Seq<char>,
    other: Option<u128>,
    available: u128,
    network: Network,
) -> Seq<Part> {
    match other {
        Some(bond) => if available > bond {
            says("    ✓ Can "@ + goal + "\n"@)
        } else {
            shows(
                "    ✗ Need "@,
                (bond - available + 1) as u128,
                " more "@ + network.spec_symbol() + " to "@ + goal + "\n"@,
            )
        },
        None => Seq::empty(),
    }
}

fn report_hurdle(parts: &mut Vec<ReportPart>, goal: &str, other: Option<u128>, network: Network)
    requires
        other matches Some(bond) ==> bond < u128::MAX,
    ensures
        part_views(final(parts)@) == part_views(old(parts)@) + hurdle(goal@, other, network),
{
    match other {
        Some(bond) => {
            let mut before = "      - To ".to_string();
            before.append(goal);
            before.append(": ");
            let mut after = " ".to_string();
            after.append(network.symbol());
            after.append("\n");
            show(parts, before, bond + 1, after);
        },
        None => {
            assert(part_views(parts@) =~= part_views(parts@) + hurdle(goal@, other, network));
        },
    }
}

fn report_verdict(
    parts: &mut Vec<ReportPart>,
    goal: &str,
    other: Option<u128>,
    available: u128,
    network: Network,
)
    requires
        other matches Some(bond) ==> bond < u128::MAX,
    ensures
        part_views(final(parts)@) == part_views(old(parts)@) + verdict(
            goal@,
            other,
            available,
            network,
        ),
{
    match other {
        Some(bond) => {
            if available > bond {
                let mut text = "    ✓ Can ".to_string();
                text.append(goal);
                text.append("\n");
                say(parts, text);
            } else {
                let mut after = " more ".to_string();
                after.append(network.symbol());
                after.append(" to ");
                after.append(goal);
                after.append("\n");
                show(parts, "    ✗ Need ".to_string(), bond - available + 1, after);
            }
        },
        None => {
            assert(part_views(parts@) =~= part_views(parts@) + verdict(
                goal@,
                other,
                available,
                network,
            ));
        },
    }
}

/// The lines of the invulnerable collators.
pub open spec fn invulnerable_parts(invulnerables: Seq<Seq<u8>>, account: Seq<u8>) -> Seq<Part>
    decreases invulnerables.len(),
{
    if invulnerables.len() == 0 {
        Seq::empty()
    } else {
        let who = invulnerables.last();
        invulnerable_parts(invulnerables.drop_last(), account) + says(
            "      - "@ + ss58_encoded(who) + own_marker(who == account) + "\n"@,
        )
    }
}

/// The lines of the candidates.
pub open spec fn candidate_parts(
    candidates: Seq<Candidate>,
    account: Seq<u8>,
    network: Network,
) -> Seq<Part>
    decreases candidates.len(),
{
    if candidates.len() == 0 {
        Seq::empty()
    } else {
        let c = candidates.last();
        candidate_parts(candidates.drop_last(), account, network) + shows(
            "      - "@ + ss58_encoded(c.who) + " (bond: "@,
            c.deposit,
            " "@ + network.spec_symbol() + ")"@ + own_marker(c.who == account) + "\n"@,
        )
    }
}

/// How the collator stands on a chain, as it is shown.
pub open spec fn standing_parts(
    network: Network,
    chain: SystemChain,
    account: Seq<u8>,
    status: CollatorStatus,
    balance: u128,
    min_bond: u128,
    invulnerables: Seq<Seq<u8>>,
    candidates: Seq<Candidate>,
) -> Seq<Part> {
    let token = " "@ + network.spec_symbol() + "\n"@;
    let available = available_for_bond(network, balance);
    let lowest = lowest_bond(candidates);
    let highest = highest_deposit(candidates);
    says("  "@ + chain.spec_display_name(network) + read_only_marker(chain) + ":\n"@) + says(
        "    Your Status: "@ + status.spec_debug() + "\n"@,
    ) + shows("    Your Balance: "@, balance, token) + says("    Bond Requirements:\n"@) + shows(
        "      - Minimum to register: "@,
        min_bond,
        token,
    ) + hurdle("beat lowest candidate"@, lowest, network) + hurdle(
        "be top candidate"@,
        highest,
        network,
    ) + shows("    Your Available for Bond: "@, available, reserve_text(network)) + verdict(
        "beat lowest candidate"@,
        lowest,
        available,
        network,
    ) + verdict("be top candidate"@, highest, available, network) + says(
        "    Invulnerables ("@ + decimal(invulnerables.len()) + "):\n"@,
    ) + invulnerable_parts(invulnerables, account) + says(
        "    Candidates ("@ + decimal(candidates.len()) + "):\n"@,
    ) + candidate_parts(candidates, account, network) + says("\n"@)
}

fn report_invulnerables(
    parts: &mut Vec<ReportPart>,
    invulnerables: &Vec<AccountId32>,
    account: &AccountId32,
)
    ensures
        part_views(final(parts)@) == part_views(old(parts)@) + invulnerable_parts(
            account_views(invulnerables@),
            account@,
        ),
{
    let ghost all = account_views(invulnerables@);
    let ghost start = part_views(parts@);
    let mut i: usize = 0;
    assert(start =~= start + invulnerable_parts(all.take(0), account@));
    while i < invulnerables.len()
        invariant
            i <= invulnerables@.len(),
            all == account_views(invulnerables@),
            part_views(parts@) == start + invulnerable_parts(all.take(i as int), account@),
        decreases invulnerables@.len() - i,
    {
        let who: AccountId32 = invulnerables[i];
        proof {
            assert(all.take(i + 1).drop_last() =~= all.take(i as int));
            assert(all.take(i + 1).last() == who@);
        }
        let mut text = "      - ".to_string();
        text.append(who.address().as_str());
        text.append(own_mark(who.same(account)).as_str());
        text.append("\n");
        let ghost line = text@;
        let ghost before = part_views(parts@);
        say(parts, text);
        proof {
            assert(part_views(parts@) == before + says(line));
            assert(start + invulnerable_parts(all.take(i as int), account@) + says(line) =~= start
                + (invulnerable_parts(all.take(i as int), account@) + says(line)));
        }
        i = i + 1;
    }
    assert(all.take(i as int) =~= all);
}

fn report_candidates(
    parts: &mut Vec<ReportPart>,
    candidates: &Vec<CandidateInfo>,
    account: &AccountId32,
    network: Network,
)
    ensures
        part_views(final(parts)@) == part_views(old(parts)@) + candidate_parts(
            candidate_views(candidates@),
            account@,
            network,
        ),
{
    let ghost all = candidate_views(candidates@);
    let ghost start = part_views(parts@);
    let mut i: usize = 0;
    assert(start =~= start + candidate_parts(all.take(0), account@, network));
    while i < candidates.len()
        invariant
            i <= candidates@.len(),
            all == candidate_views(candidates@),
            part_views(parts@) == start + candidate_parts(all.take(i as int), account@, network),
        decreases candidates@.len() - i,
    {
        let c: CandidateInfo = candidates[i];
        proof {
            assert(all.take(i + 1).drop_last() =~= all.take(i as int));
            assert(all.take(i + 1).last() == c@);
        }
        let mut before = "      - ".to_string();
        before.append(c.who.address().as_str());
        before.append(" (bond: ");
        let mut after = " ".to_string();
        after.append(network.symbol());
        after.append(")");
        after.append(own_mark(c.who.same(account)).as_str());
        after.append("\n");
        let ghost line = shows(before@, c.deposit, after@);
        show(parts, before, c.deposit, after);
        proof {
            assert(start + candidate_parts(all.take(i as int), account@, network) + line =~= start
                + (candidate_parts(all.take(i as int), account@, network) + line));
        }
        i = i + 1;
    }
    assert(all.take(i as int) =~= all);
}

/// How the collator stands on a chain, as it is shown.
pub fn run_status(
    network: Network,
    chain: SystemChain,
    account: &AccountId32,
    status: CollatorStatus,
    balance: u128,
    min_bond: u128,
    invulnerables: &Vec<AccountId32>,
    candidates: &Vec<CandidateInfo>,
) -> (r: Vec<ReportPart>)
    requires
        highest_deposit(candidate_views(candidates@)) != Some(u128::MAX),
    ensures
        part_views(r@) == standing_parts(
            network,
            chain,
            account@,
            status,
            balance,
            min_bond,
            account_views(invulnerables@),
            candidate_views(candidates@),
        ),
{
    let lowest = find_lowest_bond(candidates);
    let highest = find_highest_deposit(candidates);
    proof {
        law_lowest_bond(candidate_views(candidates@));
        law_highest_deposit(candidate_views(candidates@));
    }
    let available: u128 = balance.saturating_sub(network.reserve_amount());
    let mut token = " ".to_string();
    token.append(network.symbol());
    token.append("\n");
    let mut parts: Vec<ReportPart> = Vec::new();
    let mut head = "  ".to_string();
    head.append(chain.display_name(network).as_str());
    if !chain_supports_proxy(chain) {
        head.append(" [READ-ONLY - no proxy support]");
    }
    assert(head@ =~= "  "@ + chain.spec_display_name(network) + read_only_marker(chain));
    head.append(":\n");
    let ghost head_text = head@;
    say(&mut parts, head);
    assert(part_views(parts@) =~= says(head_text));
    let mut own = "    Your Status: ".to_string();
    own.append(status.debug_text().as_str());
    own.append("\n");
    say(&mut parts, own);
    show(&mut parts, "    Your Balance: ".to_string(), balance, token.clone());
    say(&mut parts, "    Bond Requirements:\n".to_string());
    show(&mut parts, "      - Minimum to register: ".to_string(), min_bond, token);
    report_hurdle(&mut parts, "beat lowest candidate", lowest, network);
    report_hurdle(&mut parts, "be top candidate", highest, network);
    let reserve = match network {
        Network::Polkadot => " DOT (after 1 DOT reserve)\n",
        Network::Kusama => " KSM (after 0.1 KSM reserve)\n",
    };
    show(&mut parts, "    Your Available for Bond: ".to_string(), available, reserve.to_string());
    report_verdict(&mut parts, "beat lowest candidate", lowest, available, network);
    report_verdict(&mut parts, "be top candidate", highest, available, network);
    let mut count = "    Invulnerables (".to_string();
    count.append(decimal_text(invulnerables.len() as u128).as_str());
    count.append("):\n");
    say(&mut parts, count);
    report_invulnerables(&mut parts, invulnerables, account);
    let mut candidate_count = "    Candidates (".to_string();
    candidate_count.append(decimal_text(candidates.len() as u128).as_str());
    candidate_count.append("):\n");
    say(&mut parts, candidate_count);
    report_candidates(&mut parts, candidates, account, network);
    say(&mut parts, "\n".to_string());
    parts
}

/// The line of a chain that cannot be reached.
pub fn unreachable_line(network: Network, chain: SystemChain, error: &str) -> (r: String)
    ensures
        r@ == "  "@ + chain.spec_display_name(network) + ": Error - "@ + error@,
{
    let mut r = "  ".to_string();
    r.append(chain.display_name(network).as_str());
    r.append(": Error - ");
    r.append(error);
    r
}

/// What stands above the chains of a network.
pub fn network_heading(network: Network, collator_address: &str) -> (r: String)
    ensures
        r@ == "\n=== "@ + network.spec_name() + " System Chains ===\nLooking for collator: "@
            + collator_address@ + "\n\n"@,
{
    let mut r = "\n=== ".to_string();
    r.append(network.name());
    r.append(" System Chains ===\nLooking for collator: ");
    r.append(collator_address);
    r.append("\n\n");
    r
}

/// Each invulnerable collator has a line with its address, in order; the account's
/// own one is marked, and no other.
pub proof fn law_every_invulnerable_has_a_line(invulnerables: Seq<Seq<u8>>, account: Seq<u8>)
    ensures
        invulnerable_parts(invulnerables, account).len() == invulnerables.len(),
        forall|i: int|
            0 <= i < invulnerables.len() ==> #[trigger] invulnerable_parts(invulnerables, account)[i]
                == Part::Text(
                "      - "@ + ss58_encoded(invulnerables[i]) + (if invulnerables[i] == account {
                    " <-- YOU\n"@
                } else {
                    "\n"@
                }),
            ),
    decreases invulnerables.len(),
{
    reveal_strlit(" <-- YOU");
    reveal_strlit(" <-- YOU\n");
    reveal_strlit("\n");
    if invulnerables.len() > 0 {
        let rest = invulnerables.drop_last();
        law_every_invulnerable_has_a_line(rest, account);
        let who = invulnerables.last();
        let parts = invulnerable_parts(invulnerables, account);
        let fewer = invulnerable_parts(rest, account);
        assert("      - "@ + ss58_encoded(who) + own_marker(who == account) + "\n"@
            =~= "      - "@ + ss58_encoded(who) + (if who == account {
            " <-- YOU\n"@
        } else {
            "\n"@
        }));
        assert forall|i: int| 0 <= i < rest.len() implies #[trigger] parts[i] == fewer[i]
            && invulnerables[i] == rest[i] by {}
    }
}

/// Each candidate has a line with its address and its deposit in the network's
/// token, in order; the account's own one is marked, and no other.
#[verifier::rlimit(50)]
pub proof fn law_every_candidate_has_a_line(
    candidates: Seq<Candidate>,
    account: Seq<u8>,
    network: Network,
)
    ensures
        candidate_parts(candidates, account, network).len() == 3 * candidates.len(),
        forall|i: int|
            #![trigger candidates[i]]
            0 <= i < candidates.len() ==> {
                let parts = candidate_parts(candidates, account, network);
                let token = if network is Polkadot {
                    " DOT)"@
                } else {
                    " KSM)"@
                };
                &&& parts[3 * i] == Part::Text(
                    "      - "@ + ss58_encoded(candidates[i].who) + " (bond: "@,
                )
                &&& parts[3 * i + 1] == Part::Amount(candidates[i].deposit)
                &&& parts[3 * i + 2] == Part::Text(
                    token + (if candidates[i].who == account {
                        " <-- YOU\n"@
                    } else {
                        "\n"@
                    }),
                )
            },
    decreases candidates.len(),
{
    reveal_strlit(" <-- YOU");
    reveal_strlit(" <-- YOU\n");
    reveal_strlit("\n");
    reveal_strlit(" ");
    reveal_strlit("DOT");
    reveal_strlit("KSM");
    reveal_strlit(")");
    reveal_strlit(" DOT)");
    reveal_strlit(" KSM)");
    if candidates.len() > 0 {
        let rest = candidates.drop_last();
        let n = rest.len() as int;
        law_every_candidate_has_a_line(rest, account, network);
        let c = candidates.last();
        let parts = candidate_parts(candidates, account, network);
        let fewer = candidate_parts(rest, account, network);
        assert(" "@ + network.spec_symbol() + ")"@ =~= (if network is Polkadot {
            " DOT)"@
        } else {
            " KSM)"@
        }));
        assert(" "@ + network.spec_symbol() + ")"@ + own_marker(c.who == account) + "\n"@
            =~= (" "@ + network.spec_symbol() + ")"@) + (if c.who == account {
            " <-- YOU\n"@
        } else {
            "\n"@
        }));
        assert forall|i: int| #![trigger candidates[i]] 0 <= i < candidates.len() implies {
            let token = if network is Polkadot {
                " DOT)"@
            } else {
                " KSM)"@
            };
            &&& parts[3 * i] == Part::Text(
                "      - "@ + ss58_encoded(candidates[i].who) + " (bond: "@,
            )
            &&& parts[3 * i + 1] == Part::Amount(candidates[i].deposit)
            &&& parts[3 * i + 2] == Part::Text(
                token + (if candidates[i].who == account {
                    " <-- YOU\n"@
                } else {
                    "\n"@
                }),
            )
        } by {
            if i < n {
                assert(rest[i] == candidates[i]);
                assert(parts[3 * i] == fewer[3 * i]);
                assert(parts[3 * i + 1] == fewer[3 * i + 1]);
                assert(parts[3 * i + 2] == fewer[3 * i + 2]);
            } else {
                assert(candidates[i] == c);
            }
        }
    }
}

/// A report on two accounts that differ in their status alone differs in its second
/// part alone, which tells the status.
#[verifier::rlimit(50)]
pub proof fn law_status_does_not_change_the_figures(
    network: Network,
    chain: SystemChain,
    account: Seq<u8>,
    status: CollatorStatus,
    other: CollatorStatus,
    balance: u128,
    min_bond: u128,
    invulnerables: Seq<Seq<u8>>,
    candidates: Seq<Candidate>,
)
    ensures
        ({
            let parts = standing_parts(
                network,
                chain,
                account,
                status,
                balance,
                min_bond,
                invulnerables,
                candidates,
            );
            let others = standing_parts(
                network,
                chain,
                account,
                other,
                balance,
                min_bond,
                invulnerables,
                candidates,
            );
            &&& parts.len() > 2
            &&& parts == others.update(1, parts[1])
            &&& parts[1] == Part::Text("    Your Status: "@ + status.spec_debug() + "\n"@)
        }),
{
    let parts = standing_parts(
        network,
        chain,
        account,
        status,
        balance,
        min_bond,
        invulnerables,
        candidates,
    );
    let others = standing_parts(
        network,
        chain,
        account,
        other,
        balance,
        min_bond,
        invulnerables,
        candidates,
    );
    assert(parts =~= others.update(1, parts[1]));
}

/// How many parts of a report stand before what is available for a bond: nine, and
/// three for each bond that there is to beat.
pub open spec fn parts_before_available(candidates: Seq<Candidate>) -> int {
    let to_beat_one: int = if exists|i: int|
        0 <= i < candidates.len() && (#[trigger] candidates[i]).deposit > 0 {
        3
    } else {
        0
    };
    let to_beat_all: int = if candidates.len() > 0 {
        3
    } else {
        0
    };
    9 + to_beat_one + to_beat_all
}

/// Whatever the status, the amount that is shown as available is the balance
/// without the reserve of 1 DOT or 0.1 KSM, or nothing. Where some candidate has a
/// bond, the report says next that the lowest candidate can be beaten exactly where
/// the monitor would not turn an account down as one that cannot compete, with a
/// candidacy bond of zero; else it says how much is missing, as the monitor does.
#[verifier::rlimit(50)]
pub proof fn law_report_and_monitor_agree(
    network: Network,
    chain: SystemChain,
    account: Seq<u8>,
    status: CollatorStatus,
    balance: u128,
    min_bond: u128,
    invulnerables: Seq<Seq<u8>>,
    candidates: Seq<Candidate>,
    read_only: bool,
)
    ensures
        ({
            let parts = standing_parts(
                network,
                chain,
                account,
                status,
                balance,
                min_bond,
                invulnerables,
                candidates,
            );
            let reserve: int = if network is Polkadot {
                10_000_000_000
            } else {
                100_000_000_000
            };
            let spare: int = if balance > reserve {
                balance - reserve
            } else {
                0
            };
            let at = parts_before_available(candidates);
            let bonded = exists|i: int|
                0 <= i < candidates.len() && (#[trigger] candidates[i]).deposit > 0;
            let decided = decision(
                network,
                read_only,
                CollatorStatus::NotCollator,
                balance,
                0,
                candidates,
            );
            &&& parts.len() > at + 3
            &&& parts[at] == Part::Text("    Your Available for Bond: "@)
            &&& parts[at + 1] is Amount && parts[at + 1]->Amount_0 == spare
            &&& parts[at + 2] == Part::Text(
                if network is Polkadot {
                    " DOT (after 1 DOT reserve)\n"@
                } else {
                    " KSM (after 0.1 KSM reserve)\n"@
                },
            )
            &&& bonded ==> (!(decided is CannotCompete) <==> parts[at + 3] == Part::Text(
                "    ✓ Can beat lowest candidate\n"@,
            ))
            &&& decided is CannotCompete ==> bonded && parts[at + 3] == Part::Text("    ✗ Need "@)
                && parts[at + 4] == Part::Amount(decided->CannotCompete_needed)
        }),
{
    reveal_strlit("    ✓ Can ");
    reveal_strlit("beat lowest candidate");
    reveal_strlit("\n");
    reveal_strlit("    ✓ Can beat lowest candidate\n");
    reveal_strlit("    ✗ Need ");
    assert("    ✓ Can "@ + "beat lowest candidate"@ + "\n"@
        =~= "    ✓ Can beat lowest candidate\n"@);
    assert("    ✓ Can beat lowest candidate\n"@.len() != "    ✗ Need "@.len());
    law_lowest_bond(candidates);
    law_highest_deposit(candidates);
    let token = " "@ + network.spec_symbol() + "\n"@;
    let lowest = lowest_bond(candidates);
    let highest = highest_deposit(candidates);
    let available = available_for_bond(network, balance);
    let head = says("  "@ + chain.spec_display_name(network) + read_only_marker(chain) + ":\n"@)
        + says("    Your Status: "@ + status.spec_debug() + "\n"@) + shows(
        "    Your Balance: "@,
        balance,
        token,
    ) + says("    Bond Requirements:\n"@) + shows("      - Minimum to register: "@, min_bond, token);
    assert(head.len() == 9);
    let before = head + hurdle("beat lowest candidate"@, lowest, network) + hurdle(
        "be top candidate"@,
        highest,
        network,
    );
    assert(before.len() == parts_before_available(candidates));
    let first = verdict("beat lowest candidate"@, lowest, available, network);
    let upto = before + shows("    Your Available for Bond: "@, available, reserve_text(network))
        + first;
    let parts = standing_parts(
        network,
        chain,
        account,
        status,
        balance,
        min_bond,
        invulnerables,
        candidates,
    );
    assert(upto.is_prefix_of(parts));
    assert forall|i: int| 0 <= i < upto.len() implies #[trigger] parts[i] == upto[i] by {}
    let at = before.len() as int;
    assert(upto[at] == Part::Text("    Your Available for Bond: "@));
    assert(upto[at + 1] == Part::Amount(available));
    if lowest is Some {
        assert(upto[at + 3] == first[0]);
        if available <= lowest->0 {
            assert(upto[at + 4] == first[1]);
        }
    }
}

/// A report begins with the chain, which is marked where there is no proxy, the
/// status, the balance and the least bond. Where some candidate has a bond, the bond
/// that beats the lowest candidate follows, one more than the lowest bond above
/// zero; where there is a candidate, the one of a top candidate, one more than every
/// deposit.
#[verifier::rlimit(50)]
pub proof fn law_report_shows_the_bonds_to_beat(
    network: Network,
    chain: SystemChain,
    account: Seq<u8>,
    status: CollatorStatus,
    balance: u128,
    min_bond: u128,
    invulnerables: Seq<Seq<u8>>,
    candidates: Seq<Candidate>,
)
    requires
        forall|i: int|
            0 <= i < candidates.len() ==> (#[trigger] candidates[i]).deposit < u128::MAX,
    ensures
        ({
            let parts = standing_parts(
                network,
                chain,
                account,
                status,
                balance,
                min_bond,
                invulnerables,
                candidates,
            );
            let token = if network is Polkadot {
                " DOT\n"@
            } else {
                " KSM\n"@
            };
            let bonded = exists|i: int|
                0 <= i < candidates.len() && (#[trigger] candidates[i]).deposit > 0;
            let top: int = if bonded {
                12
            } else {
                9
            };
            &&& parts[0] == Part::Text(
                "  "@ + chain.spec_display_name(network) + (if chain is BridgeHub {
                    " [READ-ONLY - no proxy support]:\n"@
                } else {
                    ":\n"@
                }),
            )
            &&& parts.subrange(2, 9) == seq![
                Part::Text("    Your Balance: "@),
                Part::Amount(balance),
                Part::Text(token),
                Part::Text("    Bond Requirements:\n"@),
                Part::Text("      - Minimum to register: "@),
                Part::Amount(min_bond),
                Part::Text(token),
            ]
            &&& bonded ==> {
                let beat = parts[10]->Amount_0;
                &&& parts[9] == Part::Text("      - To beat lowest candidate: "@)
                &&& parts[10] is Amount
                &&& parts[11] == Part::Text(token)
                &&& beat > 1
                &&& exists|i: int|
                    0 <= i < candidates.len() && (#[trigger] candidates[i]).deposit + 1 == beat
                &&& forall|i: int|
                    0 <= i < candidates.len() && (#[trigger] candidates[i]).deposit > 0
                        ==> candidates[i].deposit + 1 >= beat
            }
            &&& candidates.len() > 0 ==> {
                let beat = parts[top + 1]->Amount_0;
                &&& parts[top] == Part::Text("      - To be top candidate: "@)
                &&& parts[top + 1] is Amount
                &&& parts[top + 2] == Part::Text(token)
                &&& exists|i: int|
                    0 <= i < candidates.len() && (#[trigger] candidates[i]).deposit + 1 == beat
                &&& forall|i: int|
                    0 <= i < candidates.len() ==> (#[trigger] candidates[i]).deposit + 1 <= beat
            }
        }),
{
    reveal_strlit(" [READ-ONLY - no proxy support]");
    reveal_strlit(" [READ-ONLY - no proxy support]:\n");
    reveal_strlit(":\n");
    reveal_strlit(" ");
    reveal_strlit("DOT");
    reveal_strlit("KSM");
    reveal_strlit("\n");
    reveal_strlit(" DOT\n");
    reveal_strlit(" KSM\n");
    reveal_strlit("      - To ");
    reveal_strlit("beat lowest candidate");
    reveal_strlit("be top candidate");
    reveal_strlit(": ");
    reveal_strlit("      - To beat lowest candidate: ");
    reveal_strlit("      - To be top candidate: ");
    law_lowest_bond(candidates);
    law_highest_deposit(candidates);
    let token = " "@ + network.spec_symbol() + "\n"@;
    assert(token =~= (if network is Polkadot {
        " DOT\n"@
    } else {
        " KSM\n"@
    }));
    assert("      - To "@ + "beat lowest candidate"@ + ": "@
        =~= "      - To beat lowest candidate: "@);
    assert("      - To "@ + "be top candidate"@ + ": "@ =~= "      - To be top candidate: "@);
    assert("  "@ + chain.spec_display_name(network) + read_only_marker(chain) + ":\n"@ =~= "  "@
        + chain.spec_display_name(network) + (if chain is BridgeHub {
        " [READ-ONLY - no proxy support]:\n"@
    } else {
        ":\n"@
    }));
    let lowest = lowest_bond(candidates);
    let highest = highest_deposit(candidates);
    let head = says("  "@ + chain.spec_display_name(network) + read_only_marker(chain) + ":\n"@)
        + says("    Your Status: "@ + status.spec_debug() + "\n"@) + shows(
        "    Your Balance: "@,
        balance,
        token,
    ) + says("    Bond Requirements:\n"@) + shows("      - Minimum to register: "@, min_bond, token);
    let one = hurdle("beat lowest candidate"@, lowest, network);
    let all = hurdle("be top candidate"@, highest, network);
    let upto = head + one + all;
    let parts = standing_parts(
        network,
        chain,
        account,
        status,
        balance,
        min_bond,
        invulnerables,
        candidates,
    );
    assert(upto.is_prefix_of(parts));
    assert forall|i: int| 0 <= i < upto.len() implies #[trigger] parts[i] == upto[i] by {}
    assert(parts.subrange(2, 9) =~= seq![
        Part::Text("    Your Balance: "@),
        Part::Amount(balance),
        Part::Text(token),
        Part::Text("    Bond Requirements:\n"@),
        Part::Text("      - Minimum to register: "@),
        Part::Amount(min_bond),
        Part::Text(token),
    ]);
    if lowest is Some {
        assert(upto[9] == one[0] && upto[10] == one[1] && upto[11] == one[2]);
    }
    if highest is Some {
        let top = 9 + one.len() as int;
        assert(upto[top] == all[0] && upto[top + 1] == all[1] && upto[top + 2] == all[2]);
    }
}

/// Behind what is available and whether the lowest candidate can be beaten, a report
/// says whether the account can be the top candidate, where there is a candidate:
/// exactly where what is available is above every deposit; else it says how much is
/// missing to one more than the highest. Then it lists the invulnerable collators
/// and the candidates under their numbers, and ends with an empty line.
#[verifier::rlimit(50)]
pub proof fn law_report_ends_with_the_lists(
    network: Network,
    chain: SystemChain,
    account: Seq<u8>,
    status: CollatorStatus,
    balance: u128,
    min_bond: u128,
    invulnerables: Seq<Seq<u8>>,
    candidates: Seq<Candidate>,
)
    requires
        forall|i: int|
            0 <= i < candidates.len() ==> (#[trigger] candidates[i]).deposit < u128::MAX,
    ensures
        ({
            let parts = standing_parts(
                network,
                chain,
                account,
                status,
                balance,
                min_bond,
                invulnerables,
                candidates,
            );
            let reserve: int = if network is Polkadot {
                10_000_000_000
            } else {
                100_000_000_000
            };
            let spare: int = if balance > reserve {
                balance - reserve
            } else {
                0
            };
            let bonded = exists|i: int|
                0 <= i < candidates.len() && (#[trigger] candidates[i]).deposit > 0;
            let beats_one = exists|i: int|
                0 <= i < candidates.len() && 0 < (#[trigger] candidates[i]).deposit < spare;
            let beats_all = forall|i: int|
                0 <= i < candidates.len() ==> (#[trigger] candidates[i]).deposit < spare;
            let top: int = parts_before_available(candidates) + 3 + (if !bonded {
                0int
            } else if beats_one {
                1
            } else {
                3
            });
            let lists: int = top + (if candidates.len() == 0 {
                0int
            } else if beats_all {
                1
            } else {
                3
            });
            &&& candidates.len() > 0 && beats_all ==> parts[top] == Part::Text(
                "    ✓ Can be top candidate\n"@,
            )
            &&& candidates.len() > 0 && !beats_all ==> {
                &&& parts[top] == Part::Text("    ✗ Need "@)
                &&& parts[top + 1] is Amount
                &&& exists|i: int|
                    0 <= i < candidates.len() && (#[trigger] candidates[i]).deposit - spare + 1
                        == parts[top + 1]->Amount_0
                &&& forall|i: int|
                    0 <= i < candidates.len() ==> (#[trigger] candidates[i]).deposit - spare + 1
                        <= parts[top + 1]->Amount_0
                &&& parts[top + 2] == Part::Text(
                    if network is Polkadot {
                        " more DOT to be top candidate\n"@
                    } else {
                        " more KSM to be top candidate\n"@
                    },
                )
            }
            &&& parts.skip(lists) == seq![
                Part::Text("    Invulnerables ("@ + decimal(invulnerables.len()) + "):\n"@),
            ] + invulnerable_parts(invulnerables, account) + seq![
                Part::Text("    Candidates ("@ + decimal(candidates.len()) + "):\n"@),
            ] + candidate_parts(candidates, account, network) + seq![Part::Text("\n"@)]
        }),
{
    reveal_strlit("    ✓ Can ");
    reveal_strlit("be top candidate");
    reveal_strlit("\n");
    reveal_strlit("    ✓ Can be top candidate\n");
    reveal_strlit(" more ");
    reveal_strlit("DOT");
    reveal_strlit("KSM");
    reveal_strlit(" to ");
    reveal_strlit(" more DOT to be top candidate\n");
    reveal_strlit(" more KSM to be top candidate\n");
    assert("    ✓ Can "@ + "be top candidate"@ + "\n"@ =~= "    ✓ Can be top candidate\n"@);
    assert(" more "@ + network.spec_symbol() + " to "@ + "be top candidate"@ + "\n"@ =~= (
    if network is Polkadot {
        " more DOT to be top candidate\n"@
    } else {
        " more KSM to be top candidate\n"@
    }));
    law_lowest_bond(candidates);
    law_highest_deposit(candidates);
    let token = " "@ + network.spec_symbol() + "\n"@;
    let lowest = lowest_bond(candidates);
    let highest = highest_deposit(candidates);
    let available = available_for_bond(network, balance);
    let head = says("  "@ + chain.spec_display_name(network) + read_only_marker(chain) + ":\n"@)
        + says("    Your Status: "@ + status.spec_debug() + "\n"@) + shows(
        "    Your Balance: "@,
        balance,
        token,
    ) + says("    Bond Requirements:\n"@) + shows("      - Minimum to register: "@, min_bond, token);
    assert(head.len() == 9);
    let before = head + hurdle("beat lowest candidate"@, lowest, network) + hurdle(
        "be top candidate"@,
        highest,
        network,
    );
    assert(before.len() == parts_before_available(candidates));
    let first = verdict("beat lowest candidate"@, lowest, available, network);
    let second = verdict("be top candidate"@, highest, available, network);
    let upto = before + shows("    Your Available for Bond: "@, available, reserve_text(network))
        + first;
    let top = upto.len() as int;
    let tail = seq![Part::Text("    Invulnerables ("@ + decimal(invulnerables.len()) + "):\n"@)]
        + invulnerable_parts(invulnerables, account) + seq![
        Part::Text("    Candidates ("@ + decimal(candidates.len()) + "):\n"@),
    ] + candidate_parts(candidates, account, network) + seq![Part::Text("\n"@)];
    let parts = standing_parts(
        network,
        chain,
        account,
        status,
        balance,
        min_bond,
        invulnerables,
        candidates,
    );
    assert(parts =~= upto + second + tail);
    assert(parts.skip(top + second.len()) =~= tail);
    assert forall|i: int| 0 <= i < second.len() implies #[trigger] parts[top + i] == second[i] by {}
    if highest is Some {
        assert(parts[top + 0] == second[0]);
        if available <= highest->0 {
            assert(parts[top + 1] == second[1]);
            assert(parts[top + 2] == second[2]);
        }
    }
    if lowest is Some {
        let low = choose|i: int|
            0 <= i < candidates.len() && (#[trigger] candidates[i]).deposit == lowest->0;
        assert(candidates[low].deposit > 0);
    }
    if highest is Some {
        let high = choose|i: int|
            0 <= i < candidates.len() && (#[trigger] candidates[i]).deposit == highest->0;
        assert(candidates[high].deposit == highest->0);
    }
}

/// No results are no lines, the lines of two lists follow each other, and one result
/// is a line that names the chain and tells the outcome.
pub proof fn law_every_result_has_a_line(
    results: Seq<MonitorResult>,
    more: Seq<MonitorResult>,
    result: MonitorResult,
)
    ensures
        result_lines(Seq::empty()).len() == 0,
        result_lines(seq![result]) == "  "@ + result.chain_name@ + ": "@ + outcome_text(
            result.status,
        ) + "\n"@,
        result_lines(results + more) == result_lines(results) + result_lines(more),
        results_text(results) == "\n=== Monitoring Results ===\n\n"@ + result_lines(results) + "\n"@,
    decreases more.len(),
{
    let one = seq![result];
    assert(one.drop_last() =~= Seq::empty());
    assert(result_lines(one.drop_last()) =~= Seq::empty());
    assert(result_lines(one) =~= "  "@ + result.chain_name@ + ": "@ + outcome_text(result.status)
        + "\n"@);
    if more.len() > 0 {
        law_every_result_has_a_line(results, more.drop_last(), result);
        assert((results + more).drop_last() =~= results + more.drop_last());
        assert((results + more).last() == more.last());
        assert(result_lines(results + more) =~= result_lines(results) + result_lines(more));
    } else {
        assert(results + more =~= results);
        assert(result_lines(results) =~= result_lines(results) + result_lines(more));
    }
}

/// What is successful is marked with a tick and what fails with a cross; only a
/// request to the operator and a chain that is skipped have neither.
pub proof fn law_outcomes_are_marked(status: MonitorStatus)
    ensures
        outcome_text(status).len() > 2,
        status is AlreadyCollator || status is RegisteredAsCandidate || status is UpdatedBond
            <==> outcome_text(status)[0] == '✓',
        status is InsufficientFunds || status is CannotCompete || status is Error
            <==> outcome_text(status)[0] == '✗',
        status is ManualActionRequired <==> outcome_text(status)[0] == '🔧',
        status is Skipped <==> outcome_text(status)[0] == '-',
{
    reveal_strlit("✓ Already collator: ");
    reveal_strlit("✓ Registered with bond ");
    reveal_strlit("✓ Updated bond ");
    reveal_strlit("✗ Insufficient funds: have ");
    reveal_strlit("✗ Cannot compete: have ");
    reveal_strlit("🔧 Manual action required: ");
    reveal_strlit("✗ Error: ");
    reveal_strlit("- Skipped: ");
}

/// The words of an outcome are the same whatever the amounts, the hash, the reason
/// or the error are; all of them are told in full, and in the order in which they
/// are kept.
pub proof fn law_outcomes_are_worded_alike()
    ensures
        exists|words: Seq<Seq<char>>|
            #[trigger] words.len() == 19 && forall|status: MonitorStatus|
                #[trigger] outcome_text(status) == match status {
                    MonitorStatus::AlreadyCollator(s) => words[0] + s.spec_debug(),
                    MonitorStatus::RegisteredAsCandidate { bond, tx_hash } => words[1] + decimal(
                        bond as nat,
                    ) + words[2] + tx_hash@ + words[3],
                    MonitorStatus::UpdatedBond { old_bond, new_bond, tx_hash } => words[4]
                        + decimal(old_bond as nat) + words[5] + decimal(new_bond as nat) + words[6]
                        + tx_hash@ + words[7],
                    MonitorStatus::InsufficientFunds { available, required } => words[8] + decimal(
                        available as nat,
                    ) + words[9] + decimal(required as nat),
                    MonitorStatus::CannotCompete { available, lowest_candidate, needed } => words[10]
                        + decimal(available as nat) + words[11] + decimal(lowest_candidate as nat)
                        + words[12] + decimal(needed as nat) + words[13],
                    MonitorStatus::ManualActionRequired { reason, current_status } => words[14]
                        + reason@ + words[15] + current_status.spec_debug() + words[16],
                    MonitorStatus::Error(e) => words[17] + e@,
                    MonitorStatus::Skipped(reason) => words[18] + reason@,
                },
{
    let words = seq![
        "✓ Already collator: "@,
        "✓ Registered with bond "@,
        " (tx: "@,
        ")"@,
        "✓ Updated bond "@,
        " → "@,
        " (tx: "@,
        ")"@,
        "✗ Insufficient funds: have "@,
        ", need "@,
        "✗ Cannot compete: have "@,
        ", lowest candidate "@,
        ", need "@,
        " more"@,
        "🔧 Manual action required: "@,
        " (current: "@,
        ")"@,
        "✗ Error: "@,
        "- Skipped: "@,
    ];
    assert(words.len() == 19);
}

/// The parts of a report are seen as they are: as many, in order, texts by their
/// characters and amounts by themselves.
pub proof fn law_views_of_parts(parts: Seq<ReportPart>)
    ensures
        part_views(parts).len() == parts.len(),
        forall|i: int|
            0 <= i < parts.len() ==> #[trigger] part_views(parts)[i] == match parts[i] {
                ReportPart::Text(text) => Part::Text(text@),
                ReportPart::Amount(amount) => Part::Amount(amount),
            },
{
}

} // verus!

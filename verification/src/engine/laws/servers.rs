//! What holds of the servers: where they listen, and how they are asked and started.

use crate::engine::endpoints;
use crate::engine::endpoints::{Chosen, Question, Step};
use crate::engine::laws::runs;
use crate::engine::models::STRATEGY_MODEL_ROOSY_ID;
use crate::strs;
use crate::text;
use vstd::prelude::*;

verus! {

/// Every port of the range that no server has is a candidate, and the candidates stand in their
/// order.
pub proof fn every_free_port_is_a_candidate(
    entries: Seq<(Seq<char>, Seq<char>)>,
    from: int,
    to: int,
    port: u16,
)
    requires
        0 <= from <= port <= to <= u16::MAX,
        !endpoints::port_reserved(entries, port),
    ensures
        endpoints::free_ports(entries, from, to).contains(port),
    decreases to - from + 1,
{
    let head = endpoints::free_ports(entries, from, to - 1);
    let all = endpoints::free_ports(entries, from, to);
    if port < to {
        every_free_port_is_a_candidate(entries, from, to - 1, port);
        let i = choose|i: int| 0 <= i < head.len() && head[i] == port;
        assert(all[i] == port);
    } else {
        assert(all[head.len() as int] == port);
    }
}

/// The candidates are in order, the lowest first.
pub proof fn candidates_stand_in_order(
    entries: Seq<(Seq<char>, Seq<char>)>,
    from: int,
    to: int,
    i: int,
    j: int,
)
    requires
        0 <= from,
        to <= u16::MAX,
        0 <= i < j < endpoints::free_ports(entries, from, to).len(),
    ensures
        endpoints::free_ports(entries, from, to)[i] < endpoints::free_ports(entries, from, to)[j],
    decreases to - from + 1,
{
    let head = endpoints::free_ports(entries, from, to - 1);
    let all = endpoints::free_ports(entries, from, to);
    assert(all[i] == head[i]);
    if j < head.len() {
        candidates_stand_in_order(entries, from, to - 1, i, j);
        assert(all[j] == head[j]);
    } else {
        endpoints::candidate_ports_are_free(entries, from, to - 1, i);
    }
}

/// The trained model has the even start of the ports, and the others the odd one; both have 59.
pub proof fn models_have_their_ports(id: Seq<char>)
    ensures
        id == STRATEGY_MODEL_ROOSY_ID@ ==> endpoints::port_range(id) == (19082int, 19140int),
        id != STRATEGY_MODEL_ROOSY_ID@ ==> endpoints::port_range(id) == (19081int, 19139int),
{
}

/// An address is managed by the program where none was set, or where one of the two usual ones was,
/// whatever its letters; any other is used as it was set.
pub proof fn other_addresses_are_used_as_they_were_set(
    configured: Seq<char>,
    managed: Seq<char>,
    legacy: Seq<char>,
)
    ensures
        ({
            let own = strs::trim(configured);
            let a = strs::ascii_lower(own);
            let usual = own.len() == 0 || a == strs::ascii_lower(managed) || a == strs::ascii_lower(
                legacy,
            );
            &&& usual ==> endpoints::choice_for(configured, managed, legacy) == Chosen::Managed
            &&& !usual ==> endpoints::choice_for(configured, managed, legacy) == Chosen::Fixed(own)
        }),
{
}

/// A server is started with its host, its port, its window, its threads and its model, each behind
/// its own option, and keeps one slot.
pub proof fn a_server_is_started_with_what_it_needs(
    host: Seq<char>,
    port: u16,
    ctx_size: u32,
    threads: u32,
    model_path: Seq<char>,
)
    ensures
        ({
            let args = endpoints::server_args(host, port, ctx_size, threads, model_path);
            &&& runs::has_option(args, "--host"@, host)
            &&& runs::has_option(args, "--port"@, strs::decimal(port as nat))
            &&& runs::has_option(args, "--ctx-size"@, strs::decimal(ctx_size as nat))
            &&& runs::has_option(args, "--threads"@, strs::decimal(threads as nat))
            &&& runs::has_option(args, "--threads-batch"@, strs::decimal(threads as nat))
            &&& runs::has_option(args, "--parallel"@, "1"@)
            &&& runs::has_option(args, "--model"@, model_path)
            &&& args.contains("--slots"@)
        }),
{
    let args = endpoints::server_args(host, port, ctx_size, threads, model_path);
    assert(args[0] == "--host"@ && args[2] == "--port"@ && args[4] == "--slots"@);
    assert(args[9] == "--parallel"@ && args[11] == "--ctx-size"@ && args[13] == "--threads"@);
    assert(args[15] == "--threads-batch"@ && args[18] == "--model"@);
}

/// A server that answers is used at once. One that does not is started, and asked again; one that
/// still does not is started anew, and asked once more; and that answer is the last. A server that
/// cannot be started is started anew, and one that cannot be started anew is given up.
pub proof fn a_server_is_asked_and_started_in_turn(
    e1: Seq<char>,
    e2: Seq<char>,
    e3: Seq<char>,
)
    ensures
        ({
            let yes = Ok::<(), Seq<char>>(());
            let new = Question { starts: 0, error: Seq::empty(), step: Step::Probe };
            let silent = new.after(Err(e1));
            let started = silent.after(yes);
            let still = started.after(Err(e2));
            let anew = still.after(yes);
            &&& new.after(yes).step == Step::Done(yes)
            &&& silent.step == Step::Start
            &&& started.step == Step::Probe
            &&& started.after(yes).step == Step::Done(yes)
            &&& still.step == Step::Restart
            &&& anew.step == Step::Probe
            &&& anew.after(yes).step == Step::Done(yes)
            &&& anew.after(Err(e3)).step == Step::Done(Err(e3))
            &&& silent.after(Err(e2)).step == Step::Restart
            &&& silent.after(Err(e2)).after(yes).step == Step::Probe
            &&& still.after(Err(e3)).step == Step::Done(Err(e2 + "; restart_retry_failed: "@ + e3))
            &&& silent.after(Err(e2)).after(Err(e3)).step == Step::Done(
                Err(e1 + "; "@ + e2 + "; restart_retry_failed: "@ + e3),
            )
        }),
{
}

/// White space around an address does not count.
pub proof fn white_space_around_an_address_does_not_count(
    configured: Seq<char>,
    managed: Seq<char>,
    legacy: Seq<char>,
)
    ensures
        endpoints::choice_for(strs::trim(configured), managed, legacy) == endpoints::choice_for(
            configured,
            managed,
            legacy,
        ),
{
    text::trimming_twice_is_trimming_once(configured);
}

} // verus!

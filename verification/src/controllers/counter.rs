//! The counter application: a number kept in the store under `count`.

use vstd::prelude::*;
use crate::context::{effects_view, AlakitController, AppContext, Effect, EffectView};
use crate::dom::{log_script, toast_script};
use crate::number::{
    i32_to_string, int_decimal, law_i32_decimal_round_trip, lemma_encode_len_le, lemma_i32_decimal_short, parse_i32, parsed_i32,
};
use crate::store::store_update_script;
use crate::text::str_equal;

verus! {

/// The count the store holds: the number under `count`, or 0 when there is
/// none or it does not read as an `i32`.
pub open spec fn count_of(m: Map<Seq<char>, Seq<char>>) -> i32 {
    if m.contains_key("count"@) {
        match parsed_i32(m["count"@]) {
            Some(n) => n,
            None => 0i32,
        }
    } else {
        0i32
    }
}

/// One more than `n`, wrapping around at the largest `i32` as release
/// builds do.
pub open spec fn count_up(n: i32) -> i32 {
    if n == i32::MAX {
        i32::MIN
    } else {
        (n + 1) as i32
    }
}

/// One less than `n`, wrapping around at the smallest `i32` as release
/// builds do.
pub open spec fn count_down(n: i32) -> i32 {
    if n == i32::MIN {
        i32::MAX
    } else {
        (n - 1) as i32
    }
}

/// The controller of the counter.
#[derive(Default)]
pub struct CounterController;

impl CounterController {
    /// The current count.
    fn current_count(ctx: &AppContext) -> (n: i32)
        requires
            ctx.wf(),
        ensures
            n == count_of(ctx.store@),
    {
        match ctx.store.get("count") {
            Some(v) => match parse_i32(v.as_str()) {
                Some(n) => n,
                None => 0,
            },
            None => 0,
        }
    }

    /// Stores `n` as the count and logs it after `message`.
    fn write_count(ctx: &mut AppContext, n: i32, message: &str) -> (effects: Vec<Effect>)
        requires
            old(ctx).wf(),
        ensures
            final(ctx).wf(),
            !final(ctx).store.failed() ==> final(ctx).store@ == old(ctx).store@.insert(
                "count"@,
                int_decimal(n as int),
            ),
            final(ctx).store.failed() ==> final(ctx).store@ == old(ctx).store@,
            effects_view(effects@) == seq![
                EffectView::Run { script: store_update_script("count"@, int_decimal(n as int)) },
                EffectView::Run { script: log_script(message@ + int_decimal(n as int)) },
            ],
    {
        let text = i32_to_string(n);
        proof {
            lemma_i32_decimal_short(n);
        }
        let stored = ctx.store.set("count", text.as_str());
        let mut line = message.to_owned();
        crate::text::push_str(&mut line, text.as_str());
        let logged = ctx.dom.log(line.as_str());
        let effects = vec![Effect::Run { script: stored }, Effect::Run { script: logged }];
        assert(effects_view(effects@) =~= seq![
            EffectView::Run { script: store_update_script("count"@, int_decimal(n as int)) },
            EffectView::Run { script: log_script(message@ + int_decimal(n as int)) },
        ]);
        effects
    }
}

impl AlakitController for CounterController {
    /// `increment` and `decrement` step the count by one and log it; `reset`
    /// sets it to 0 with a toast and a log line; other commands are reported
    /// on the console.
    fn handle(&self, command: &str, args: &str, ctx: &mut AppContext) -> (effects: Vec<Effect>)
        ensures
            command@ == "increment"@ ==> {
                let n = count_up(count_of(old(ctx).store@));
                &&& !final(ctx).store.failed() ==> final(ctx).store@ == old(ctx).store@.insert("count"@, int_decimal(n as int))
                &&& effects_view(effects@) == seq![
                    EffectView::Run { script: store_update_script("count"@, int_decimal(n as int)) },
                    EffectView::Run {
                        script: log_script("Counter incremented: "@ + int_decimal(n as int)),
                    },
                ]
            },
            command@ == "decrement"@ ==> {
                let n = count_down(count_of(old(ctx).store@));
                &&& !final(ctx).store.failed() ==> final(ctx).store@ == old(ctx).store@.insert("count"@, int_decimal(n as int))
                &&& effects_view(effects@) == seq![
                    EffectView::Run { script: store_update_script("count"@, int_decimal(n as int)) },
                    EffectView::Run {
                        script: log_script("Counter decremented: "@ + int_decimal(n as int)),
                    },
                ]
            },
            command@ == "reset"@ ==> {
                &&& !final(ctx).store.failed() ==> final(ctx).store@ == old(ctx).store@.insert("count"@, "0"@)
                &&& effects_view(effects@) == seq![
                    EffectView::Run { script: store_update_script("count"@, "0"@) },
                    EffectView::Run { script: toast_script("info"@, "Counter has been reset"@) },
                    EffectView::Run { script: log_script("Counter reset"@) },
                ]
            },
            command@ != "increment"@ && command@ != "decrement"@ && command@ != "reset"@ ==> {
                &&& final(ctx).store@ == old(ctx).store@
                &&& effects_view(effects@) == seq![
                    EffectView::Print { line: "Unknown command from Counter: "@ + command@ },
                ]
            },
    {
        proof {
            reveal_strlit("increment");
            reveal_strlit("decrement");
            reveal_strlit("reset");
            assert("increment"@[0] != "decrement"@[0]);
            assert("increment"@[0] != "reset"@[0]);
            assert("decrement"@[0] != "reset"@[0]);
        }
        let current = Self::current_count(ctx);
        if str_equal(command, "increment") {
            let n = current.wrapping_add(1);
            assert(n == count_up(current));
            Self::write_count(ctx, n, "Counter incremented: ")
        } else if str_equal(command, "decrement") {
            let n = current.wrapping_sub(1);
            assert(n == count_down(current));
            Self::write_count(ctx, n, "Counter decremented: ")
        } else if str_equal(command, "reset") {
            proof {
                reveal_strlit("0");
                lemma_encode_len_le("0"@);
            }
            let stored = ctx.store.set("count", "0");
            let toast = ctx.dom.toast_info("Counter has been reset");
            let logged = ctx.dom.log("Counter reset");
            let effects = vec![
                Effect::Run { script: stored },
                Effect::Run { script: toast },
                Effect::Run { script: logged },
            ];
            assert(effects_view(effects@) =~= seq![
                EffectView::Run { script: store_update_script("count"@, "0"@) },
                EffectView::Run { script: toast_script("info"@, "Counter has been reset"@) },
                EffectView::Run { script: log_script("Counter reset"@) },
            ]);
            effects
        } else {
            let mut line = "Unknown command from Counter: ".to_owned();
            crate::text::push_str(&mut line, command);
            let effects = vec![Effect::Print { line }];
            assert(effects_view(effects@) =~= seq![
                EffectView::Print { line: "Unknown command from Counter: "@ + command@ },
            ]);
            effects
        }
    }
}

/// Counting up and then down leaves the count where it was: the counter
/// reads back each count it writes, and the two steps undo each other (also
/// where they wrap around).
pub proof fn law_counter_up_then_down(m: Map<Seq<char>, Seq<char>>)
    ensures
        ({
            let up = m.insert("count"@, int_decimal(count_up(count_of(m)) as int));
            let down = up.insert("count"@, int_decimal(count_down(count_of(up)) as int));
            &&& count_of(up) == count_up(count_of(m))
            &&& count_of(down) == count_of(m)
        }),
{
    let n = count_of(m);
    law_i32_decimal_round_trip(count_up(n));
    let up = m.insert("count"@, int_decimal(count_up(n) as int));
    assert(count_of(up) == count_up(n));
    law_i32_decimal_round_trip(count_down(count_up(n)));
}

/// A reset leaves the count at zero.
pub proof fn law_counter_reset_is_zero(m: Map<Seq<char>, Seq<char>>)
    ensures
        count_of(m.insert("count"@, "0"@)) == 0,
{
    law_i32_decimal_round_trip(0);
    assert(int_decimal(0) =~= seq!['0']);
    reveal_strlit("0");
    assert("0"@ =~= seq!['0']);
}

/// Each step moves the count by exactly one: `increment` adds one and
/// `decrement` takes one away, wrapping only past the ends of `i32`; and the
/// count read back after an `increment` is the count before it plus one.
pub proof fn law_counter_steps_by_one(n: i32, m: Map<Seq<char>, Seq<char>>)
    ensures
        n < i32::MAX ==> count_up(n) == n + 1,
        n == i32::MAX ==> count_up(n) == i32::MIN,
        n > i32::MIN ==> count_down(n) == n - 1,
        n == i32::MIN ==> count_down(n) == i32::MAX,
        count_of(m) < i32::MAX ==> count_of(
            m.insert("count"@, int_decimal(count_up(count_of(m)) as int)),
        ) == count_of(m) + 1,
        count_of(m) > i32::MIN ==> count_of(
            m.insert("count"@, int_decimal(count_down(count_of(m)) as int)),
        ) == count_of(m) - 1,
{
    law_i32_decimal_round_trip(count_up(count_of(m)));
    law_i32_decimal_round_trip(count_down(count_of(m)));
}

} // verus!

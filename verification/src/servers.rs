//! The process's serving plan: which example listens on which fixed local
//! port, and the greeting served at every example's root path.

use vstd::prelude::*;

verus! {

/// The four examples, in the order their listeners are started.
#[derive(Debug, Clone, Copy, PartialEq, Eq, Structural)]
pub enum Example {
    NestingWithDerive,
    NestingWithOpenapiRouter,
    EnumOfJsSimpleTypes,
    EnumMapping,
}

/// One listener of the plan: an example bound to a fixed local port.
#[derive(Debug, Clone, Copy, PartialEq, Eq, Structural)]
pub struct Listener {
    pub example: Example,
    pub port: u16,
}

/// The serving plan: all four examples at once, each on its own fixed local
/// port, started concurrently and joined at process exit.
pub fn server_plan() -> (r: Vec<Listener>)
    ensures
        r@ == seq![
            (Listener { example: Example::NestingWithDerive, port: 10000u16 }),
            (Listener { example: Example::NestingWithOpenapiRouter, port: 10001u16 }),
            (Listener { example: Example::EnumOfJsSimpleTypes, port: 10002u16 }),
            (Listener { example: Example::EnumMapping, port: 10003u16 }),
        ],
{
    let mut v: Vec<Listener> = Vec::new();
    v.push(Listener { example: Example::NestingWithDerive, port: 10000 });
    v.push(Listener { example: Example::NestingWithOpenapiRouter, port: 10001 });
    v.push(Listener { example: Example::EnumOfJsSimpleTypes, port: 10002 });
    v.push(Listener { example: Example::EnumMapping, port: 10003 });
    proof {
        assert(v@ =~= seq![
            (Listener { example: Example::NestingWithDerive, port: 10000u16 }),
            (Listener { example: Example::NestingWithOpenapiRouter, port: 10001u16 }),
            (Listener { example: Example::EnumOfJsSimpleTypes, port: 10002u16 }),
            (Listener { example: Example::EnumMapping, port: 10003u16 }),
        ]);
    }
    v
}

/// The listeners bind distinct ports, so the four servers can be started
/// concurrently without interfering on binding.
pub proof fn lemma_plan_ports_distinct(plan: Seq<Listener>)
    requires
        plan == seq![
            (Listener { example: Example::NestingWithDerive, port: 10000u16 }),
            (Listener { example: Example::NestingWithOpenapiRouter, port: 10001u16 }),
            (Listener { example: Example::EnumOfJsSimpleTypes, port: 10002u16 }),
            (Listener { example: Example::EnumMapping, port: 10003u16 }),
        ],
    ensures
        forall|i: int, j: int| 0 <= i < j < plan.len() ==> plan[i].port != plan[j].port,
{
}

/// The plaintext greeting served at every example's root path.
pub fn index() -> (r: String)
    ensures
        r@ == "Hello, World"@,
{
    String::from_str("Hello, World")
}

} // verus!

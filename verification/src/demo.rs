//! The demos that the harness knows, and the names that each goes by.

use vstd::prelude::*;
use vstd::string::*;

verus! {

/// One contract demo: a contract module, a caller script and the procedure that the script
/// calls.
#[derive(Clone, Copy, Debug, PartialEq, Eq, Structural)]
pub enum Demo {
    AddU256,
    Schnorr,
}

/// What the command line asks for.
#[derive(Clone, Copy, Debug, PartialEq, Eq, Structural)]
pub enum Dispatch {
    /// The selector names this demo.
    Run(Demo),
    /// The selector names no demo.
    Unimplemented,
    /// The command line holds no selector.
    NoSelector,
}

/// The word that selects a demo on the command line. It also names the demo's files.
pub open spec fn selector_of(demo: Demo) -> Seq<char> {
    match demo {
        Demo::AddU256 => "add_u256"@,
        Demo::Schnorr => "schnorr"@,
    }
}

/// The name under which a demo's contract exports the procedure that its script calls.
pub open spec fn procedure_of(demo: Demo) -> Seq<char> {
    match demo {
        Demo::AddU256 => "add_u256"@,
        Demo::Schnorr => "verify_schnorr"@,
    }
}

/// Where a demo's contract module lies.
pub open spec fn contract_path_of(demo: Demo) -> Seq<char> {
    "./masm/accounts/"@ + selector_of(demo) + ".masm"@
}

/// Where a demo's caller script lies.
pub open spec fn script_path_of(demo: Demo) -> Seq<char> {
    "./masm/scripts/"@ + selector_of(demo) + "_script.masm"@
}

/// The demo that a selector names, if it names one. The match is exact.
pub open spec fn recognized(selector: Seq<char>) -> Option<Demo> {
    if selector == "add_u256"@ {
        Some(Demo::AddU256)
    } else if selector == "schnorr"@ {
        Some(Demo::Schnorr)
    } else {
        None
    }
}

/// What a command line asks for: the word at position 1 decides.
pub open spec fn dispatched(args: Seq<Seq<char>>) -> Dispatch {
    if args.len() < 2 {
        Dispatch::NoSelector
    } else {
        match recognized(args[1]) {
            Some(demo) => Dispatch::Run(demo),
            None => Dispatch::Unimplemented,
        }
    }
}

/// Where a block explorer shows a transaction.
pub open spec fn explorer_url_of(transaction: Seq<char>) -> Seq<char> {
    "https://testnet.midenscan.com/tx/"@ + transaction
}

/// Whether two texts are the same.
pub fn same_text(a: &str, b: &str) -> (same: bool)
    ensures
        same == (a@ == b@),
{
    String::from_str(a) == String::from_str(b)
}

impl Demo {
    /// The word that selects this demo.
    pub fn selector(self) -> (word: &'static str)
        ensures
            word@ == selector_of(self),
    {
        match self {
            Demo::AddU256 => "add_u256",
            Demo::Schnorr => "schnorr",
        }
    }

    /// The procedure that this demo's script calls.
    pub fn procedure(self) -> (name: &'static str)
        ensures
            name@ == procedure_of(self),
    {
        match self {
            Demo::AddU256 => "add_u256",
            Demo::Schnorr => "verify_schnorr",
        }
    }

    /// The path of this demo's contract module.
    pub fn contract_path(self) -> (path: String)
        ensures
            path@ == contract_path_of(self),
    {
        let mut path = String::from_str("./masm/accounts/");
        path.append(self.selector());
        path.append(".masm");
        path
    }

    /// The path of this demo's caller script.
    pub fn script_path(self) -> (path: String)
        ensures
            path@ == script_path_of(self),
    {
        let mut path = String::from_str("./masm/scripts/");
        path.append(self.selector());
        path.append("_script.masm");
        path
    }

    /// The demo that a selector names: `Some` exactly for `add_u256` and `schnorr`.
    pub fn from_selector(selector: &str) -> (demo: Option<Demo>)
        ensures
            demo == recognized(selector@),
    {
        if same_text(selector, "add_u256") {
            Some(Demo::AddU256)
        } else if same_text(selector, "schnorr") {
            Some(Demo::Schnorr)
        } else {
            None
        }
    }
}

/// Reads a command line: the word at position 1 selects the demo.
pub fn dispatch(args: &Vec<String>) -> (choice: Dispatch)
    ensures
        choice == dispatched(args.deep_view()),
{
    if args.len() < 2 {
        Dispatch::NoSelector
    } else {
        assert(args.deep_view()[1] == args@[1]@);
        match Demo::from_selector(args[1].as_str()) {
            Some(demo) => Dispatch::Run(demo),
            None => Dispatch::Unimplemented,
        }
    }
}

/// The address at which a block explorer shows the transaction with this identifier.
pub fn explorer_url(transaction: &str) -> (url: String)
    ensures
        url@ == explorer_url_of(transaction@),
{
    let mut url = String::from_str("https://testnet.midenscan.com/tx/");
    url.append(transaction);
    url
}

/// A demo is found again by its own selector.
pub proof fn lemma_selector_round_trip(demo: Demo)
    ensures
        recognized(selector_of(demo)) == Some(demo),
{
    reveal_strlit("add_u256");
    reveal_strlit("schnorr");
    assert("add_u256"@.len() == 8);
    assert("schnorr"@.len() == 7);
}

/// A selector that is neither `add_u256` nor `schnorr` starts nothing.
pub proof fn lemma_unknown_selector(args: Seq<Seq<char>>)
    requires
        args.len() >= 2,
        args[1] != "add_u256"@,
        args[1] != "schnorr"@,
    ensures
        dispatched(args) == Dispatch::Unimplemented,
{
}

/// A procedure's name is shorter than a digest in text.
pub proof fn lemma_procedure_is_short(demo: Demo)
    ensures
        procedure_of(demo).len() < 66,
{
    reveal_strlit("add_u256");
    reveal_strlit("verify_schnorr");
}

} // verus!

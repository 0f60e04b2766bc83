//! The table of token patterns, in the order of their token kinds.

use vstd::prelude::*;
use crate::syntax::tok::TOKEN_KINDS;

verus! {

/// The regular expression that recognises the token kind with index `i`.
/// Each pattern is anchored at the start of the text it is tried on.
pub open spec fn token_pattern(i: int) -> Seq<char> {
    if i == 0 {
        "^(0[Xx][0-9A-Fa-f]+)"@
    } else if i == 1 {
        "^([0-9]+)"@
    } else if i == 2 {
        "^([\\$A-Z_a-z][\\$0-9A-Z_a-z]*)"@
    } else if i == 3 {
        "^([\\$A-Z_a-z][\\$0-9A-Z_a-z]*<)"@
    } else if i == 4 {
        "^([\\$A-Z_a-z][\\$0-9A-Z_a-z]*\\.[\\$A-Z_a-z][\\$0-9A-Z_a-z]*)"@
    } else if i == 5 {
        "^(h\"[0-9A-Fa-f]*\")"@
    } else if i == 6 {
        "^(!)"@
    } else if i == 7 {
        "^(!=)"@
    } else if i == 8 {
        "^(%)"@
    } else if i == 9 {
        "^(\\&)"@
    } else if i == 10 {
        "^(\\&\\&)"@
    } else if i == 11 {
        "^(\\&mut )"@
    } else if i == 12 {
        "^(\\()"@
    } else if i == 13 {
        "^(\\))"@
    } else if i == 14 {
        "^(\\*)"@
    } else if i == 15 {
        "^(\\+)"@
    } else if i == 16 {
        "^(,)"@
    } else if i == 17 {
        "^(\\-)"@
    } else if i == 18 {
        "^(\\.)"@
    } else if i == 19 {
        "^(/)"@
    } else if i == 20 {
        "^(:)"@
    } else if i == 21 {
        "^(;)"@
    } else if i == 22 {
        "^(<)"@
    } else if i == 23 {
        "^(<=)"@
    } else if i == 24 {
        "^(=)"@
    } else if i == 25 {
        "^(==)"@
    } else if i == 26 {
        "^(>)"@
    } else if i == 27 {
        "^(>=)"@
    } else if i == 28 {
        "^(\\^)"@
    } else if i == 29 {
        "^(_)"@
    } else if i == 30 {
        "^(abort)"@
    } else if i == 31 {
        "^(acquires)"@
    } else if i == 32 {
        "^(address)"@
    } else if i == 33 {
        "^(as)"@
    } else if i == 34 {
        "^(assert\\()"@
    } else if i == 35 {
        "^(bool)"@
    } else if i == 36 {
        "^(borrow_global<)"@
    } else if i == 37 {
        "^(borrow_global_mut<)"@
    } else if i == 38 {
        "^(break)"@
    } else if i == 39 {
        "^(bytearray)"@
    } else if i == 40 {
        "^(continue)"@
    } else if i == 41 {
        "^(copy\\()"@
    } else if i == 42 {
        "^(create_account)"@
    } else if i == 43 {
        "^(else)"@
    } else if i == 44 {
        "^(exists<)"@
    } else if i == 45 {
        "^(false)"@
    } else if i == 46 {
        "^(freeze)"@
    } else if i == 47 {
        "^(get_gas_remaining)"@
    } else if i == 48 {
        "^(get_txn_gas_unit_price)"@
    } else if i == 49 {
        "^(get_txn_max_gas_units)"@
    } else if i == 50 {
        "^(get_txn_public_key)"@
    } else if i == 51 {
        "^(get_txn_sender)"@
    } else if i == 52 {
        "^(get_txn_sequence_number)"@
    } else if i == 53 {
        "^(if)"@
    } else if i == 54 {
        "^(import)"@
    } else if i == 55 {
        "^(let)"@
    } else if i == 56 {
        "^(loop)"@
    } else if i == 57 {
        "^(main)"@
    } else if i == 58 {
        "^(module)"@
    } else if i == 59 {
        "^(modules:)"@
    } else if i == 60 {
        "^(move\\()"@
    } else if i == 61 {
        "^(move_from<)"@
    } else if i == 62 {
        "^(move_to_sender<)"@
    } else if i == 63 {
        "^(native)"@
    } else if i == 64 {
        "^(public)"@
    } else if i == 65 {
        "^(resource)"@
    } else if i == 66 {
        "^(return)"@
    } else if i == 67 {
        "^(script:)"@
    } else if i == 68 {
        "^(struct)"@
    } else if i == 69 {
        "^(true)"@
    } else if i == 70 {
        "^(u64)"@
    } else if i == 71 {
        "^(unrestricted)"@
    } else if i == 72 {
        "^(while)"@
    } else if i == 73 {
        "^(\\{)"@
    } else if i == 74 {
        "^(\\|)"@
    } else if i == 75 {
        "^(\\|\\|)"@
    } else {
        "^(\\})"@
    }
}

/// The text of the pattern with index `i`.
pub fn pattern_text(i: usize) -> (text: &'static str)
    requires
        i < TOKEN_KINDS,
    ensures
        text@ == token_pattern(i as int),
{
    match i {
        0 => "^(0[Xx][0-9A-Fa-f]+)",
        1 => "^([0-9]+)",
        2 => "^([\\$A-Z_a-z][\\$0-9A-Z_a-z]*)",
        3 => "^([\\$A-Z_a-z][\\$0-9A-Z_a-z]*<)",
        4 => "^([\\$A-Z_a-z][\\$0-9A-Z_a-z]*\\.[\\$A-Z_a-z][\\$0-9A-Z_a-z]*)",
        5 => "^(h\"[0-9A-Fa-f]*\")",
        6 => "^(!)",
        7 => "^(!=)",
        8 => "^(%)",
        9 => "^(\\&)",
        10 => "^(\\&\\&)",
        11 => "^(\\&mut )",
        12 => "^(\\()",
        13 => "^(\\))",
        14 => "^(\\*)",
        15 => "^(\\+)",
        16 => "^(,)",
        17 => "^(\\-)",
        18 => "^(\\.)",
        19 => "^(/)",
        20 => "^(:)",
        21 => "^(;)",
        22 => "^(<)",
        23 => "^(<=)",
        24 => "^(=)",
        25 => "^(==)",
        26 => "^(>)",
        27 => "^(>=)",
        28 => "^(\\^)",
        29 => "^(_)",
        30 => "^(abort)",
        31 => "^(acquires)",
        32 => "^(address)",
        33 => "^(as)",
        34 => "^(assert\\()",
        35 => "^(bool)",
        36 => "^(borrow_global<)",
        37 => "^(borrow_global_mut<)",
        38 => "^(break)",
        39 => "^(bytearray)",
        40 => "^(continue)",
        41 => "^(copy\\()",
        42 => "^(create_account)",
        43 => "^(else)",
        44 => "^(exists<)",
        45 => "^(false)",
        46 => "^(freeze)",
        47 => "^(get_gas_remaining)",
        48 => "^(get_txn_gas_unit_price)",
        49 => "^(get_txn_max_gas_units)",
        50 => "^(get_txn_public_key)",
        51 => "^(get_txn_sender)",
        52 => "^(get_txn_sequence_number)",
        53 => "^(if)",
        54 => "^(import)",
        55 => "^(let)",
        56 => "^(loop)",
        57 => "^(main)",
        58 => "^(module)",
        59 => "^(modules:)",
        60 => "^(move\\()",
        61 => "^(move_from<)",
        62 => "^(move_to_sender<)",
        63 => "^(native)",
        64 => "^(public)",
        65 => "^(resource)",
        66 => "^(return)",
        67 => "^(script:)",
        68 => "^(struct)",
        69 => "^(true)",
        70 => "^(u64)",
        71 => "^(unrestricted)",
        72 => "^(while)",
        73 => "^(\\{)",
        74 => "^(\\|)",
        75 => "^(\\|\\|)",
        _ => "^(\\})",
    }
}

} // verus!

use vstd::prelude::*;
use crate::text::{
    i32_of, lower_of, lowercase, parse_i32, parse_u32, parse_usize, split_words, text_eq, texts,
    u32_of, usize_of, words_of,
};

verus! {

/// A typed operator command.
#[derive(Debug)]
pub enum Command {
    Help,
    Status,
    Exit,
    /// List the whole catalog, or look one item up by id, name or UUID.
    Items(Option<String>),
    Inventory,
    Stats,
    Give { id: String, count: u32 },
    Equip { slot: String, index: usize },
    Unequip { slot: String },
    Use { index: usize },
    GainExp { amount: i32 },
    TakeDamage { damage: i32 },
    Heal { amount: i32 },
    /// The first word matched no verb.
    Unsupported(String),
}

/// Whether a command is about the system or about the game world.
#[derive(Debug, Clone, Copy, PartialEq, Eq, Structural)]
pub enum CommandType {
    System,
    Game,
}

/// Word `i` of a line, or the empty text past the last word.
pub open spec fn word(ws: Seq<Seq<char>>, i: int) -> Seq<char> {
    if 0 <= i < ws.len() {
        ws[i]
    } else {
        Seq::empty()
    }
}

/// The count argument of `give`: one where it is missing or not a `u32`.
pub open spec fn count_arg(ws: Seq<Seq<char>>, i: int) -> u32 {
    if i < ws.len() {
        match u32_of(ws[i]) {
            Some(v) => v,
            None => 1,
        }
    } else {
        1
    }
}

/// An index argument: zero where it is missing or not a `usize`.
pub open spec fn index_arg(ws: Seq<Seq<char>>, i: int) -> usize {
    if i < ws.len() {
        match usize_of(ws[i]) {
            Some(v) => v,
            None => 0,
        }
    } else {
        0
    }
}

/// An amount argument: zero where it is missing or not an `i32`.
pub open spec fn amount_arg(ws: Seq<Seq<char>>, i: int) -> i32 {
    if i < ws.len() {
        match i32_of(ws[i]) {
            Some(v) => v,
            None => 0,
        }
    } else {
        0
    }
}

/// The verb of a line: its first word in lower case, or the empty text.
pub open spec fn verb(ws: Seq<Seq<char>>) -> Seq<char> {
    if ws.len() == 0 {
        Seq::empty()
    } else {
        lower_of(ws[0])
    }
}

/// Whether `c` is the command that the words `ws` of a line spell. Unknown
/// verbs give `Unsupported`; missing or malformed numbers take defaults.
pub open spec fn parses_to(ws: Seq<Seq<char>>, c: Command) -> bool {
    let v = verb(ws);
    if v == "help"@ || v == "h"@ || v == "?"@ {
        c is Help
    } else if v == "status"@ || v == "s"@ {
        c is Status
    } else if v == "exit"@ || v == "quit"@ || v == "q"@ {
        c is Exit
    } else if v == "items"@ || v == "item"@ || v == "i"@ {
        match c {
            Command::Items(t) => if ws.len() > 1 {
                t matches Some(s) && s@ == ws[1]
            } else {
                t is None
            },
            _ => false,
        }
    } else if v == "give"@ {
        match c {
            Command::Give { id, count } => id@ == word(ws, 1) && count == count_arg(ws, 2),
            _ => false,
        }
    } else if v == "inventory"@ || v == "inv"@ {
        c is Inventory
    } else if v == "equip"@ {
        match c {
            Command::Equip { slot, index } => slot@ == word(ws, 1) && index == index_arg(ws, 2),
            _ => false,
        }
    } else if v == "unequip"@ {
        match c {
            Command::Unequip { slot } => slot@ == word(ws, 1),
            _ => false,
        }
    } else if v == "use"@ {
        match c {
            Command::Use { index } => index == index_arg(ws, 1),
            _ => false,
        }
    } else if v == "stats"@ {
        c is Stats
    } else if v == "gain_exp"@ {
        match c {
            Command::GainExp { amount } => amount == amount_arg(ws, 1),
            _ => false,
        }
    } else if v == "take_damage"@ {
        match c {
            Command::TakeDamage { damage } => damage == amount_arg(ws, 1),
            _ => false,
        }
    } else if v == "heal"@ {
        match c {
            Command::Heal { amount } => amount == amount_arg(ws, 1),
            _ => false,
        }
    } else {
        match c {
            Command::Unsupported(o) => o@ == v,
            _ => false,
        }
    }
}

impl Command {
    /// System commands answer at once; game commands change the world.
    pub fn command_type(&self) -> (r: CommandType)
        ensures
            r == (match self {
                Command::Give { .. } | Command::Equip { .. } | Command::Unequip { .. }
                | Command::Use { .. } | Command::GainExp { .. } | Command::TakeDamage { .. }
                | Command::Heal { .. } => CommandType::Game,
                _ => CommandType::System,
            }),
    {
        match self {
            Command::Give { .. } | Command::Equip { .. } | Command::Unequip { .. } | Command::Use {
                ..
            } | Command::GainExp { .. } | Command::TakeDamage { .. } | Command::Heal { .. } => {
                CommandType::Game
            },
            _ => CommandType::System,
        }
    }
}

/// Word `i` of a list of words, or the empty text.
fn word_at(ws: &Vec<String>, i: usize) -> (r: String)
    ensures
        r@ == word(texts(ws@), i as int),
{
    if i < ws.len() {
        ws[i].clone()
    } else {
        String::new()
    }
}

fn count_at(ws: &Vec<String>, i: usize) -> (r: u32)
    ensures
        r == count_arg(texts(ws@), i as int),
{
    if i < ws.len() {
        match parse_u32(ws[i].as_str()) {
            Some(v) => v,
            None => 1,
        }
    } else {
        1
    }
}

fn index_at(ws: &Vec<String>, i: usize) -> (r: usize)
    ensures
        r == index_arg(texts(ws@), i as int),
{
    if i < ws.len() {
        match parse_usize(ws[i].as_str()) {
            Some(v) => v,
            None => 0,
        }
    } else {
        0
    }
}

fn amount_at(ws: &Vec<String>, i: usize) -> (r: i32)
    ensures
        r == amount_arg(texts(ws@), i as int),
{
    if i < ws.len() {
        match parse_i32(ws[i].as_str()) {
            Some(v) => v,
            None => 0,
        }
    } else {
        0
    }
}

/// Reads one line as a command.
pub fn parse_command(input: &str) -> (c: Command)
    ensures
        parses_to(words_of(input@), c),
{
    let ws = split_words(input);
    let v = if ws.len() == 0 {
        String::new()
    } else {
        lowercase(ws[0].as_str())
    };
    let ghost w = texts(ws@);
    assert(v@ == verb(w));
    let s = v.as_str();
    if text_eq(s, "help") || text_eq(s, "h") || text_eq(s, "?") {
        Command::Help
    } else if text_eq(s, "status") || text_eq(s, "s") {
        Command::Status
    } else if text_eq(s, "exit") || text_eq(s, "quit") || text_eq(s, "q") {
        Command::Exit
    } else if text_eq(s, "items") || text_eq(s, "item") || text_eq(s, "i") {
        if ws.len() > 1 {
            Command::Items(Some(ws[1].clone()))
        } else {
            Command::Items(None)
        }
    } else if text_eq(s, "give") {
        Command::Give { id: word_at(&ws, 1), count: count_at(&ws, 2) }
    } else if text_eq(s, "inventory") || text_eq(s, "inv") {
        Command::Inventory
    } else if text_eq(s, "equip") {
        Command::Equip { slot: word_at(&ws, 1), index: index_at(&ws, 2) }
    } else if text_eq(s, "unequip") {
        Command::Unequip { slot: word_at(&ws, 1) }
    } else if text_eq(s, "use") {
        Command::Use { index: index_at(&ws, 1) }
    } else if text_eq(s, "stats") {
        Command::Stats
    } else if text_eq(s, "gain_exp") {
        Command::GainExp { amount: amount_at(&ws, 1) }
    } else if text_eq(s, "take_damage") {
        Command::TakeDamage { damage: amount_at(&ws, 1) }
    } else if text_eq(s, "heal") {
        Command::Heal { amount: amount_at(&ws, 1) }
    } else {
        Command::Unsupported(v)
    }
}

} // verus!

//! Global Arch pet: braille wings matching the welcome logo art, right-aligned
//! above the prompt, with no text label.

use vstd::prelude::*;

use crate::text::push_char;

verus! {

/// Activity-driven pet states for the always-on chrome.
#[derive(Debug, Clone, Copy, PartialEq, Eq, Hash, Structural)]
pub enum PetState {
    /// No active turn.
    Idle,
    /// Agent turn running / tools executing.
    Working,
    /// Turn just completed successfully (brief pulse).
    Happy,
}

pub open spec fn pet_name(s: PetState) -> Seq<char> {
    match s {
        PetState::Idle => "idle"@,
        PetState::Working => "working"@,
        PetState::Happy => "happy"@,
    }
}

/// The single-line wing tips shown for each state.
pub open spec fn pet_glyph(s: PetState) -> Seq<char> {
    match s {
        PetState::Idle => "⠰⣶⣿⣶⠆"@,
        PetState::Working => "⠰⣿⣿⣿⠆"@,
        PetState::Happy => "⠰⣶*⣶⠆"@,
    }
}

/// The multi-line wing art shown for each state.
pub open spec fn pet_sprite(s: PetState) -> Seq<Seq<char>> {
    match s {
        PetState::Idle => wings_idle(),
        PetState::Working => wings_working(),
        PetState::Happy => wings_happy(),
    }
}

/// The rows of the `wings_idle` wing art.
pub open spec fn wings_idle() -> Seq<Seq<char>> {
    seq![
        "⠀⠀⠀⠀⠀⠀⠀⠀⠀⠰⣶⣄⠀⠀⠀⠀⠀⠀⠀⠀⠀⠀⠀⠀⠀⠀⠀⠀⠀⠀⠀⠀⠀⠀⠀⠀⠀⣀⣶⠆         "@,
        "⠀⠀⠀⠀⠀⠀⠀⣠⢿⣷⠼⠓⠻⣦⠀⠀⠀⠀⠀⠀⠀⠀⠀⠀⠀⠀⠀⠀⠀⠀⠀⠀⠀⠀⠀⣰⠟⠛⠢⢼⡻⣆⡀      "@,
        "⠀⠀⠀⠀⢀⣾⡟⠁⡄⢸⠻⢀⠰⣄⢹⡄⠀⠀⠀⠀⠀⠀⠀⠀⠀⠀⠀⠀⠀⠀⠀⠀⠀⢀⡏⢀⠎⣀⠟⡇⢲⠀⠻⡷⣄    "@,
        "⠀⠀⣰⠃⡼⠀⣿⡎⠀⣿⡆⡉⢾⣆⣈⠳⠹⢦⡀⠀⠀⠀⠀⠀⠀⠀⠀⠀⠀⠀⢀⣴⠟⠿⣁⣸⡿⢛⢶⣿⠀⢸⢿⠀⢳⠘⣧  "@,
        "⢠⣿⠞⡟⠀⢸⠀⡇⠀⡟⣿⣷⡇⡄⣌⠙⠻⢿⣷⣿⣲⣤⣹⣦⡀⣰⣏⣡⠔⣫⣷⣿⠟⠋⣁⢠⢹⣷⣿⢻⠀⢸⠀⡇⠀⢹⠳⣽⡀"@,
        "⠀⠀⣸⠀⢸⠁⠸⣷⠀⢸⠀⢸⡈⠛⠛⠛⢿⣿⣿⣿⣾⣴⠸⣿⢵⣿⠏⡆⣷⣿⣿⢿⡿⠟⠛⠛⢁⡏⠀⡎⠀⣼⡇⠀⡇⠀⢷  "@,
        "⠀⠸⣿⡾⡇⠀⠀⣿⣇⠀⢧⠀⠈⢧⣇⣏⠀⡟⢻⠇⢸⠷⠈⠁⠀⠈⠁⠸⡇⠸⣏⡿⡀⢹⣼⣾⠁⠀⡸⠀⢸⢻⠀⠀⢸⣷⣾  "@,
        "⠀⠀⠀⠀⡇⠀⠀⣿⠀⢧⠀⢱⠀⠀⢹⡌⠀⠈⠙⣧⣼⠀⠀⠀⠀⠀⠀⠀⢷⣼⠃⠁⠀⢁⡟⠀⠀⡜⠀⣸⠀⢸⠀⠀⢸    "@,
        "⠀⠀⠀⠀⢹⡆⠀⣿⠀⠀⢹⡀⠘⡄⠀⠈⣧⠀⠀⠀⠀⠀⠀⠀⠀⠀⠀⠀⠀⠀⠀⠀⣸⠃⠀⢀⠇⢀⡎⠀⠀⢸⠀⠀⡇    "@,
        "⠀⠀⠀⠀⠀⠸⣼⡏⢧⠀⠀⠈⢧⠀⢳⡀⠈⡇⠀⠀⠀⠀⠀⠀⠀⠀⠀⠀⠀⠀⠀⢸⠃⠀⡼⠁⡸⠁⠀⠀⡸⢋⣧⠏     "@,
    ]
}

/// Same wings, slightly denser mid-band (working pulse).
pub open spec fn wings_working() -> Seq<Seq<char>> {
    seq![
        "⠀⠀⠀⠀⠀⠀⠀⠀⠀⠰⣶⣄⠀⠀⠀⠀⠀⠀⠀⠀⠀⠀⠀⠀⠀⠀⠀⠀⠀⠀⠀⠀⠀⠀⠀⠀⠀⣀⣶⠆         "@,
        "⠀⠀⠀⠀⠀⠀⠀⣠⢿⣷⠼⠓⠻⣦⠀⠀⠀⠀⠀⠀⠀⠀⠀⠀⠀⠀⠀⠀⠀⠀⠀⠀⠀⠀⠀⣰⠟⠛⠢⢼⡻⣆⡀      "@,
        "⠀⠀⠀⠀⢀⣾⡟⠁⡄⢸⠻⢀⠰⣄⢹⡄⠀⠀⠀⠀⠀⠀⠀⠀⠀⠀⠀⠀⠀⠀⠀⠀⠀⢀⡏⢀⠎⣀⠟⡇⢲⠀⠻⡷⣄    "@,
        "⠀⠀⣰⠃⡼⠀⣿⡎⠀⣿⡆⡉⢾⣆⣈⠳⠹⢦⡀⠀⠀⠀⠀⠀⠀⠀⠀⠀⠀⠀⢀⣴⠟⠿⣁⣸⡿⢛⢶⣿⠀⢸⢿⠀⢳⠘⣧  "@,
        "⢠⣿⠞⡟⠀⢸⣿⡇⠀⡟⣿⣷⡇⡄⣌⠙⠻⢿⣷⣿⣲⣤⣹⣦⡀⣰⣏⣡⠔⣫⣷⣿⠟⠋⣁⢠⢹⣷⣿⢻⠀⢸⣿⡇⠀⢹⠳⣽⡀"@,
        "⠀⠀⣸⠀⢸⠁⠸⣷⠀⢸⠀⢸⡈⠛⠛⠛⢿⣿⣿⣿⣾⣴⠸⣿⢵⣿⠏⡆⣷⣿⣿⢿⡿⠟⠛⠛⢁⡏⠀⡎⠀⣼⡇⠀⡇⠀⢷  "@,
        "⠀⠸⣿⡾⡇⠀⠀⣿⣇⠀⢧⠀⠈⢧⣇⣏⠀⡟⢻⠇⢸⠷⠈⠁⠀⠈⠁⠸⡇⠸⣏⡿⡀⢹⣼⣾⠁⠀⡸⠀⢸⢻⠀⠀⢸⣷⣾  "@,
        "⠀⠀⠀⠀⡇⠀⠀⣿⠀⢧⠀⢱⠀⠀⢹⡌⠀⠈⠙⣧⣼⠀⠀⠀⠀⠀⠀⠀⢷⣼⠃⠁⠀⢁⡟⠀⠀⡜⠀⣸⠀⢸⠀⠀⢸    "@,
        "⠀⠀⠀⠀⢹⡆⠀⣿⠀⠀⢹⡀⠘⡄⠀⠈⣧⠀⠀⠀⠀⠀⠀⠀⠀⠀⠀⠀⠀⠀⠀⠀⣸⠃⠀⢀⠇⢀⡎⠀⠀⢸⠀⠀⡇    "@,
        "⠀⠀⠀⠀⠀⠸⣼⡏⢧⠀⠀⠈⢧⠀⢳⡀⠈⡇⠀⠀⠀⠀⠀⠀⠀⠀⠀⠀⠀⠀⠀⢸⠃⠀⡼⠁⡸⠁⠀⠀⡸⢋⣧⠏     "@,
    ]
}

/// Wing-tip sparkles.
pub open spec fn wings_happy() -> Seq<Seq<char>> {
    seq![
        "⠀⠀⠀⠀⠀⠀⠀⠀*⠰⣶⣄⠀⠀⠀⠀⠀⠀⠀⠀⠀⠀⠀⠀⠀⠀⠀⠀⠀⠀⠀⠀⠀⠀⠀⠀⠀⣀⣶⠆*        "@,
        "⠀⠀⠀⠀⠀⠀⠀⣠⢿⣷⠼⠓⠻⣦⠀⠀⠀⠀⠀⠀⠀⠀⠀⠀⠀⠀⠀⠀⠀⠀⠀⠀⠀⠀⠀⣰⠟⠛⠢⢼⡻⣆⡀      "@,
        "⠀⠀⠀⠀⢀⣾⡟⠁⡄⢸⠻⢀⠰⣄⢹⡄⠀⠀⠀⠀⠀⠀⠀⠀⠀⠀⠀⠀⠀⠀⠀⠀⠀⢀⡏⢀⠎⣀⠟⡇⢲⠀⠻⡷⣄    "@,
        "⠀⠀⣰⠃⡼⠀⣿⡎⠀⣿⡆⡉⢾⣆⣈⠳⠹⢦⡀⠀⠀⠀⠀⠀⠀⠀⠀⠀⠀⠀⢀⣴⠟⠿⣁⣸⡿⢛⢶⣿⠀⢸⢿⠀⢳⠘⣧  "@,
        "⢠⣿⠞⡟⠀⢸⠀⡇⠀⡟⣿⣷⡇⡄⣌⠙⠻⢿⣷⣿⣲⣤⣹⣦⡀⣰⣏⣡⠔⣫⣷⣿⠟⠋⣁⢠⢹⣷⣿⢻⠀⢸⠀⡇⠀⢹⠳⣽⡀"@,
        "⠀⠀⣸⠀⢸⠁⠸⣷⠀⢸⠀⢸⡈⠛⠛⠛⢿⣿⣿⣿⣾⣴⠸⣿⢵⣿⠏⡆⣷⣿⣿⢿⡿⠟⠛⠛⢁⡏⠀⡎⠀⣼⡇⠀⡇⠀⢷  "@,
        "⠀⠸⣿⡾⡇⠀⠀⣿⣇⠀⢧⠀⠈⢧⣇⣏⠀⡟⢻⠇⢸⠷⠈⠁⠀⠈⠁⠸⡇⠸⣏⡿⡀⢹⣼⣾⠁⠀⡸⠀⢸⢻⠀⠀⢸⣷⣾  "@,
        "⠀⠀⠀⠀⡇⠀⠀⣿⠀⢧⠀⢱⠀⠀⢹⡌⠀⠈⠙⣧⣼⠀⠀⠀⠀⠀⠀⠀⢷⣼⠃⠁⠀⢁⡟⠀⠀⡜⠀⣸⠀⢸⠀⠀⢸    "@,
        "⠀⠀⠀⠀⢹⡆⠀⣿⠀⠀⢹⡀⠘⡄⠀⠈⣧⠀⠀⠀⠀⠀⠀⠀⠀⠀⠀⠀⠀⠀⠀⠀⣸⠃⠀⢀⠇⢀⡎⠀⠀⢸⠀⠀⡇    "@,
        "⠀⠀⠀⠀⠀⠸⣼⡏⢧⠀⠀⠈⢧⠀⢳⡀⠈⡇⠀⠀⠀⠀⠀⠀⠀⠀⠀⠀⠀⠀⠀⢸⠃⠀⡼⠁⡸⠁⠀⠀⡸⢋⣧⠏     "@,
    ]
}

fn wings_idle_rows() -> (r: &'static [&'static str])
    ensures
        r@.map_values(|x: &'static str| x@) == wings_idle(),
{
    let r: &'static [&'static str] = &[
        "⠀⠀⠀⠀⠀⠀⠀⠀⠀⠰⣶⣄⠀⠀⠀⠀⠀⠀⠀⠀⠀⠀⠀⠀⠀⠀⠀⠀⠀⠀⠀⠀⠀⠀⠀⠀⠀⣀⣶⠆         ",
        "⠀⠀⠀⠀⠀⠀⠀⣠⢿⣷⠼⠓⠻⣦⠀⠀⠀⠀⠀⠀⠀⠀⠀⠀⠀⠀⠀⠀⠀⠀⠀⠀⠀⠀⠀⣰⠟⠛⠢⢼⡻⣆⡀      ",
        "⠀⠀⠀⠀⢀⣾⡟⠁⡄⢸⠻⢀⠰⣄⢹⡄⠀⠀⠀⠀⠀⠀⠀⠀⠀⠀⠀⠀⠀⠀⠀⠀⠀⢀⡏⢀⠎⣀⠟⡇⢲⠀⠻⡷⣄    ",
        "⠀⠀⣰⠃⡼⠀⣿⡎⠀⣿⡆⡉⢾⣆⣈⠳⠹⢦⡀⠀⠀⠀⠀⠀⠀⠀⠀⠀⠀⠀⢀⣴⠟⠿⣁⣸⡿⢛⢶⣿⠀⢸⢿⠀⢳⠘⣧  ",
        "⢠⣿⠞⡟⠀⢸⠀⡇⠀⡟⣿⣷⡇⡄⣌⠙⠻⢿⣷⣿⣲⣤⣹⣦⡀⣰⣏⣡⠔⣫⣷⣿⠟⠋⣁⢠⢹⣷⣿⢻⠀⢸⠀⡇⠀⢹⠳⣽⡀",
        "⠀⠀⣸⠀⢸⠁⠸⣷⠀⢸⠀⢸⡈⠛⠛⠛⢿⣿⣿⣿⣾⣴⠸⣿⢵⣿⠏⡆⣷⣿⣿⢿⡿⠟⠛⠛⢁⡏⠀⡎⠀⣼⡇⠀⡇⠀⢷  ",
        "⠀⠸⣿⡾⡇⠀⠀⣿⣇⠀⢧⠀⠈⢧⣇⣏⠀⡟⢻⠇⢸⠷⠈⠁⠀⠈⠁⠸⡇⠸⣏⡿⡀⢹⣼⣾⠁⠀⡸⠀⢸⢻⠀⠀⢸⣷⣾  ",
        "⠀⠀⠀⠀⡇⠀⠀⣿⠀⢧⠀⢱⠀⠀⢹⡌⠀⠈⠙⣧⣼⠀⠀⠀⠀⠀⠀⠀⢷⣼⠃⠁⠀⢁⡟⠀⠀⡜⠀⣸⠀⢸⠀⠀⢸    ",
        "⠀⠀⠀⠀⢹⡆⠀⣿⠀⠀⢹⡀⠘⡄⠀⠈⣧⠀⠀⠀⠀⠀⠀⠀⠀⠀⠀⠀⠀⠀⠀⠀⣸⠃⠀⢀⠇⢀⡎⠀⠀⢸⠀⠀⡇    ",
        "⠀⠀⠀⠀⠀⠸⣼⡏⢧⠀⠀⠈⢧⠀⢳⡀⠈⡇⠀⠀⠀⠀⠀⠀⠀⠀⠀⠀⠀⠀⠀⢸⠃⠀⡼⠁⡸⠁⠀⠀⡸⢋⣧⠏     ",
    ];
    assert(r@.map_values(|x: &'static str| x@) =~= wings_idle());
    r
}

fn wings_working_rows() -> (r: &'static [&'static str])
    ensures
        r@.map_values(|x: &'static str| x@) == wings_working(),
{
    let r: &'static [&'static str] = &[
        "⠀⠀⠀⠀⠀⠀⠀⠀⠀⠰⣶⣄⠀⠀⠀⠀⠀⠀⠀⠀⠀⠀⠀⠀⠀⠀⠀⠀⠀⠀⠀⠀⠀⠀⠀⠀⠀⣀⣶⠆         ",
        "⠀⠀⠀⠀⠀⠀⠀⣠⢿⣷⠼⠓⠻⣦⠀⠀⠀⠀⠀⠀⠀⠀⠀⠀⠀⠀⠀⠀⠀⠀⠀⠀⠀⠀⠀⣰⠟⠛⠢⢼⡻⣆⡀      ",
        "⠀⠀⠀⠀⢀⣾⡟⠁⡄⢸⠻⢀⠰⣄⢹⡄⠀⠀⠀⠀⠀⠀⠀⠀⠀⠀⠀⠀⠀⠀⠀⠀⠀⢀⡏⢀⠎⣀⠟⡇⢲⠀⠻⡷⣄    ",
        "⠀⠀⣰⠃⡼⠀⣿⡎⠀⣿⡆⡉⢾⣆⣈⠳⠹⢦⡀⠀⠀⠀⠀⠀⠀⠀⠀⠀⠀⠀⢀⣴⠟⠿⣁⣸⡿⢛⢶⣿⠀⢸⢿⠀⢳⠘⣧  ",
        "⢠⣿⠞⡟⠀⢸⣿⡇⠀⡟⣿⣷⡇⡄⣌⠙⠻⢿⣷⣿⣲⣤⣹⣦⡀⣰⣏⣡⠔⣫⣷⣿⠟⠋⣁⢠⢹⣷⣿⢻⠀⢸⣿⡇⠀⢹⠳⣽⡀",
        "⠀⠀⣸⠀⢸⠁⠸⣷⠀⢸⠀⢸⡈⠛⠛⠛⢿⣿⣿⣿⣾⣴⠸⣿⢵⣿⠏⡆⣷⣿⣿⢿⡿⠟⠛⠛⢁⡏⠀⡎⠀⣼⡇⠀⡇⠀⢷  ",
        "⠀⠸⣿⡾⡇⠀⠀⣿⣇⠀⢧⠀⠈⢧⣇⣏⠀⡟⢻⠇⢸⠷⠈⠁⠀⠈⠁⠸⡇⠸⣏⡿⡀⢹⣼⣾⠁⠀⡸⠀⢸⢻⠀⠀⢸⣷⣾  ",
        "⠀⠀⠀⠀⡇⠀⠀⣿⠀⢧⠀⢱⠀⠀⢹⡌⠀⠈⠙⣧⣼⠀⠀⠀⠀⠀⠀⠀⢷⣼⠃⠁⠀⢁⡟⠀⠀⡜⠀⣸⠀⢸⠀⠀⢸    ",
        "⠀⠀⠀⠀⢹⡆⠀⣿⠀⠀⢹⡀⠘⡄⠀⠈⣧⠀⠀⠀⠀⠀⠀⠀⠀⠀⠀⠀⠀⠀⠀⠀⣸⠃⠀⢀⠇⢀⡎⠀⠀⢸⠀⠀⡇    ",
        "⠀⠀⠀⠀⠀⠸⣼⡏⢧⠀⠀⠈⢧⠀⢳⡀⠈⡇⠀⠀⠀⠀⠀⠀⠀⠀⠀⠀⠀⠀⠀⢸⠃⠀⡼⠁⡸⠁⠀⠀⡸⢋⣧⠏     ",
    ];
    assert(r@.map_values(|x: &'static str| x@) =~= wings_working());
    r
}

fn wings_happy_rows() -> (r: &'static [&'static str])
    ensures
        r@.map_values(|x: &'static str| x@) == wings_happy(),
{
    let r: &'static [&'static str] = &[
        "⠀⠀⠀⠀⠀⠀⠀⠀*⠰⣶⣄⠀⠀⠀⠀⠀⠀⠀⠀⠀⠀⠀⠀⠀⠀⠀⠀⠀⠀⠀⠀⠀⠀⠀⠀⠀⣀⣶⠆*        ",
        "⠀⠀⠀⠀⠀⠀⠀⣠⢿⣷⠼⠓⠻⣦⠀⠀⠀⠀⠀⠀⠀⠀⠀⠀⠀⠀⠀⠀⠀⠀⠀⠀⠀⠀⠀⣰⠟⠛⠢⢼⡻⣆⡀      ",
        "⠀⠀⠀⠀⢀⣾⡟⠁⡄⢸⠻⢀⠰⣄⢹⡄⠀⠀⠀⠀⠀⠀⠀⠀⠀⠀⠀⠀⠀⠀⠀⠀⠀⢀⡏⢀⠎⣀⠟⡇⢲⠀⠻⡷⣄    ",
        "⠀⠀⣰⠃⡼⠀⣿⡎⠀⣿⡆⡉⢾⣆⣈⠳⠹⢦⡀⠀⠀⠀⠀⠀⠀⠀⠀⠀⠀⠀⢀⣴⠟⠿⣁⣸⡿⢛⢶⣿⠀⢸⢿⠀⢳⠘⣧  ",
        "⢠⣿⠞⡟⠀⢸⠀⡇⠀⡟⣿⣷⡇⡄⣌⠙⠻⢿⣷⣿⣲⣤⣹⣦⡀⣰⣏⣡⠔⣫⣷⣿⠟⠋⣁⢠⢹⣷⣿⢻⠀⢸⠀⡇⠀⢹⠳⣽⡀",
        "⠀⠀⣸⠀⢸⠁⠸⣷⠀⢸⠀⢸⡈⠛⠛⠛⢿⣿⣿⣿⣾⣴⠸⣿⢵⣿⠏⡆⣷⣿⣿⢿⡿⠟⠛⠛⢁⡏⠀⡎⠀⣼⡇⠀⡇⠀⢷  ",
        "⠀⠸⣿⡾⡇⠀⠀⣿⣇⠀⢧⠀⠈⢧⣇⣏⠀⡟⢻⠇⢸⠷⠈⠁⠀⠈⠁⠸⡇⠸⣏⡿⡀⢹⣼⣾⠁⠀⡸⠀⢸⢻⠀⠀⢸⣷⣾  ",
        "⠀⠀⠀⠀⡇⠀⠀⣿⠀⢧⠀⢱⠀⠀⢹⡌⠀⠈⠙⣧⣼⠀⠀⠀⠀⠀⠀⠀⢷⣼⠃⠁⠀⢁⡟⠀⠀⡜⠀⣸⠀⢸⠀⠀⢸    ",
        "⠀⠀⠀⠀⢹⡆⠀⣿⠀⠀⢹⡀⠘⡄⠀⠈⣧⠀⠀⠀⠀⠀⠀⠀⠀⠀⠀⠀⠀⠀⠀⠀⣸⠃⠀⢀⠇⢀⡎⠀⠀⢸⠀⠀⡇    ",
        "⠀⠀⠀⠀⠀⠸⣼⡏⢧⠀⠀⠈⢧⠀⢳⡀⠈⡇⠀⠀⠀⠀⠀⠀⠀⠀⠀⠀⠀⠀⠀⢸⠃⠀⡼⠁⡸⠁⠀⠀⡸⢋⣧⠏     ",
    ];
    assert(r@.map_values(|x: &'static str| x@) =~= wings_happy());
    r
}

impl PetState {
    pub fn as_str(self) -> (r: &'static str)
        ensures
            r@ == pet_name(self),
    {
        match self {
            PetState::Idle => "idle",
            PetState::Working => "working",
            PetState::Happy => "happy",
        }
    }

    /// Single-line fallback: wing tips from the logo style.
    pub fn glyph(self) -> (r: &'static str)
        ensures
            r@ == pet_glyph(self),
    {
        match self {
            PetState::Idle => "⠰⣶⣿⣶⠆",
            PetState::Working => "⠰⣿⣿⣿⠆",
            PetState::Happy => "⠰⣶*⣶⠆",
        }
    }

    /// Unused in UI.
    pub fn label(self) -> (r: &'static str)
        ensures
            r@ == Seq::<char>::empty(),
    {
        proof {
            reveal_strlit("");
        }
        ""
    }

    /// Multi-line wings (same braille language as the welcome logo).
    pub fn sprite(self) -> (r: &'static [&'static str])
        ensures
            r@.map_values(|x: &'static str| x@) == pet_sprite(self),
    {
        match self {
            PetState::Idle => wings_idle_rows(),
            PetState::Working => wings_working_rows(),
            PetState::Happy => wings_happy_rows(),
        }
    }

    /// Matches `sprite().len()`: compact welcome wing art.
    pub const BAND_HEIGHT: u16 = 10;
}

/// Which state the flags of a session call for: a running turn wins, then a
/// just-completed one, else idle.
pub open spec fn pet_state_for(turn_running: bool, just_completed: bool) -> PetState {
    if turn_running {
        PetState::Working
    } else if just_completed {
        PetState::Happy
    } else {
        PetState::Idle
    }
}

/// Map session activity flags to a pet state (pure, testable).
pub fn pet_state_from_agent(turn_running: bool, just_completed: bool) -> (r: PetState)
    ensures
        r == pet_state_for(turn_running, just_completed),
{
    if turn_running {
        PetState::Working
    } else if just_completed {
        PetState::Happy
    } else {
        PetState::Idle
    }
}

/// Transition helper used by the TUI tick path.
pub fn next_pet_state(prev: PetState, turn_running: bool, turn_just_ended: bool) -> (r: PetState)
    ensures
        r == pet_state_for(turn_running, turn_just_ended),
{
    if turn_running {
        return PetState::Working;
    }
    if turn_just_ended {
        return PetState::Happy;
    }
    if prev == PetState::Happy {
        return PetState::Idle;
    }
    PetState::Idle
}

/// Single-line chrome: glyph only.
pub fn format_pet_chrome(state: PetState) -> (r: String)
    ensures
        r@ == pet_glyph(state),
{
    String::from_str(state.glyph())
}

/// Rows joined by single newlines.
pub open spec fn join_lines(rows: Seq<Seq<char>>) -> Seq<char>
    decreases rows.len(),
{
    if rows.len() == 0 {
        Seq::empty()
    } else if rows.len() == 1 {
        rows[0]
    } else {
        join_lines(rows.drop_last()) + seq!['\n'] + rows.last()
    }
}

/// Multi-line sprite joined with newlines.
pub fn format_pet_sprite(state: PetState) -> (r: String)
    ensures
        r@ == join_lines(pet_sprite(state)),
{
    let rows = state.sprite();
    let ghost views = rows@.map_values(|x: &'static str| x@);
    let mut out = String::new();
    let mut i: usize = 0;
    while i < rows.len()
        invariant
            i <= rows.len(),
            views == rows@.map_values(|x: &'static str| x@),
            out@ == join_lines(views.take(i as int)),
        decreases rows.len() - i,
    {
        if i > 0 {
            push_char(&mut out, '\n');
        }
        out.append(rows[i]);
        proof {
            let t = views.take(i + 1);
            assert(t.drop_last() =~= views.take(i as int));
            if i == 0 {
                assert(t.len() == 1);
            }
        }
        i += 1;
    }
    assert(views.take(rows.len() as int) =~= views);
    out
}

/// Every sprite is exactly one band of `BAND_HEIGHT` rows.
pub proof fn law_sprite_fills_band(state: PetState)
    ensures
        pet_sprite(state).len() == PetState::BAND_HEIGHT,
{
}

/// Each state shows its own glyph.
pub proof fn law_glyphs_differ_by_state(a: PetState, b: PetState)
    ensures
        a != b ==> pet_glyph(a) != pet_glyph(b),
{
    reveal_strlit("⠰⣶⣿⣶⠆");
    reveal_strlit("⠰⣿⣿⣿⠆");
    reveal_strlit("⠰⣶*⣶⠆");
    if a != b {
        if pet_glyph(a) == pet_glyph(b) {
            assert(pet_glyph(a)[1] == pet_glyph(b)[1]);
            assert(pet_glyph(a)[2] == pet_glyph(b)[2]);
        }
    }
}

/// A running turn shows the working pet whatever else the flags say, and the
/// tick transition does not depend on the previous state.
pub proof fn law_working_wins(just_completed: bool)
    ensures
        pet_state_for(true, just_completed) == PetState::Working,
{
}

/// `str::split('\n')`: the pieces between newlines, in order; text with no
/// newline is one piece, and the empty text is one empty piece.
pub open spec fn split_lines(s: Seq<char>) -> Seq<Seq<char>>
    decreases s.len(),
{
    if s.len() == 0 {
        seq![Seq::empty()]
    } else if s.last() == '\n' {
        split_lines(s.drop_last()).push(Seq::empty())
    } else {
        let r = split_lines(s.drop_last());
        r.update(r.len() - 1, r.last().push(s.last()))
    }
}

/// No newline occurs in `s`.
pub open spec fn single_line(s: Seq<char>) -> bool {
    forall|k: int| 0 <= k < s.len() ==> s[k] != '\n'
}

proof fn lemma_split_nonempty(s: Seq<char>)
    ensures
        split_lines(s).len() >= 1,
    decreases s.len(),
{
    if s.len() > 0 {
        lemma_split_nonempty(s.drop_last());
    }
}

/// Appending text with no newline extends the last piece.
proof fn lemma_split_append_line(p: Seq<char>, y: Seq<char>)
    requires
        single_line(y),
    ensures
        split_lines(p + y).len() == split_lines(p).len(),
        split_lines(p + y) == split_lines(p).update(
            split_lines(p).len() - 1,
            split_lines(p).last() + y,
        ),
    decreases y.len(),
{
    lemma_split_nonempty(p);
    let r = split_lines(p);
    if y.len() == 0 {
        assert(p + y =~= p);
        assert(r.last() + y =~= r.last());
        assert(r.update(r.len() - 1, r.last() + y) =~= r);
    } else {
        let y0 = y.drop_last();
        assert(single_line(y0)) by {
            assert forall|k: int| 0 <= k < y0.len() implies y0[k] != '\n' by {
                assert(y0[k] == y[k]);
            }
        }
        lemma_split_append_line(p, y0);
        assert((p + y).drop_last() =~= p + y0);
        assert((p + y).last() == y.last());
        assert(y[y.len() - 1] != '\n');
        let q = split_lines(p + y0);
        assert(q.last() == r.last() + y0);
        assert((r.last() + y0).push(y.last()) =~= r.last() + y);
        assert(q.update(q.len() - 1, q.last().push(y.last())) =~= r.update(r.len() - 1, r.last() + y));
    }
}

/// Splitting rows joined by newlines gives the rows back, when no row holds a
/// newline of its own.
pub proof fn law_split_undoes_join(rows: Seq<Seq<char>>)
    requires
        rows.len() >= 1,
        forall|i: int| 0 <= i < rows.len() ==> single_line(#[trigger] rows[i]),
    ensures
        split_lines(join_lines(rows)) == rows,
    decreases rows.len(),
{
    if rows.len() == 1 {
        assert(single_line(rows[0]));
        lemma_split_append_line(Seq::empty(), rows[0]);
        assert(Seq::<char>::empty() + rows[0] =~= rows[0]);
        assert(Seq::<char>::empty() + rows[0] =~= rows[0]);
        assert(split_lines(Seq::<char>::empty()) == seq![Seq::<char>::empty()]);
        assert(split_lines(rows[0]) =~= rows);
    } else {
        let front = rows.drop_last();
        assert forall|i: int| 0 <= i < front.len() implies single_line(#[trigger] front[i]) by {
            assert(front[i] == rows[i]);
        }
        law_split_undoes_join(front);
        let x = join_lines(front) + seq!['\n'];
        assert(x.drop_last() =~= join_lines(front));
        assert(split_lines(x) == rows.drop_last().push(Seq::empty()));
        assert(single_line(rows.last()));
        lemma_split_append_line(x, rows.last());
        assert(Seq::<char>::empty() + rows.last() =~= rows.last());
        assert(rows.drop_last().push(Seq::empty()).update(rows.len() - 1, Seq::<char>::empty() + rows.last()) =~= rows);
    }
}

/// No row of the wing art holds a newline.
proof fn lemma_sprite_rows_single_line(state: PetState)
    ensures
        forall|i: int| 0 <= i < pet_sprite(state).len() ==> single_line(#[trigger] pet_sprite(state)[i]),
{
    reveal_strlit("⠀⠀⠀⠀⠀⠀⠀⠀⠀⠰⣶⣄⠀⠀⠀⠀⠀⠀⠀⠀⠀⠀⠀⠀⠀⠀⠀⠀⠀⠀⠀⠀⠀⠀⠀⠀⠀⣀⣶⠆         ");
    reveal_strlit("⠀⠀⠀⠀⠀⠀⠀⣠⢿⣷⠼⠓⠻⣦⠀⠀⠀⠀⠀⠀⠀⠀⠀⠀⠀⠀⠀⠀⠀⠀⠀⠀⠀⠀⠀⣰⠟⠛⠢⢼⡻⣆⡀      ");
    reveal_strlit("⠀⠀⠀⠀⢀⣾⡟⠁⡄⢸⠻⢀⠰⣄⢹⡄⠀⠀⠀⠀⠀⠀⠀⠀⠀⠀⠀⠀⠀⠀⠀⠀⠀⢀⡏⢀⠎⣀⠟⡇⢲⠀⠻⡷⣄    ");
    reveal_strlit("⠀⠀⣰⠃⡼⠀⣿⡎⠀⣿⡆⡉⢾⣆⣈⠳⠹⢦⡀⠀⠀⠀⠀⠀⠀⠀⠀⠀⠀⠀⢀⣴⠟⠿⣁⣸⡿⢛⢶⣿⠀⢸⢿⠀⢳⠘⣧  ");
    reveal_strlit("⢠⣿⠞⡟⠀⢸⠀⡇⠀⡟⣿⣷⡇⡄⣌⠙⠻⢿⣷⣿⣲⣤⣹⣦⡀⣰⣏⣡⠔⣫⣷⣿⠟⠋⣁⢠⢹⣷⣿⢻⠀⢸⠀⡇⠀⢹⠳⣽⡀");
    reveal_strlit("⠀⠀⣸⠀⢸⠁⠸⣷⠀⢸⠀⢸⡈⠛⠛⠛⢿⣿⣿⣿⣾⣴⠸⣿⢵⣿⠏⡆⣷⣿⣿⢿⡿⠟⠛⠛⢁⡏⠀⡎⠀⣼⡇⠀⡇⠀⢷  ");
    reveal_strlit("⠀⠸⣿⡾⡇⠀⠀⣿⣇⠀⢧⠀⠈⢧⣇⣏⠀⡟⢻⠇⢸⠷⠈⠁⠀⠈⠁⠸⡇⠸⣏⡿⡀⢹⣼⣾⠁⠀⡸⠀⢸⢻⠀⠀⢸⣷⣾  ");
    reveal_strlit("⠀⠀⠀⠀⡇⠀⠀⣿⠀⢧⠀⢱⠀⠀⢹⡌⠀⠈⠙⣧⣼⠀⠀⠀⠀⠀⠀⠀⢷⣼⠃⠁⠀⢁⡟⠀⠀⡜⠀⣸⠀⢸⠀⠀⢸    ");
    reveal_strlit("⠀⠀⠀⠀⢹⡆⠀⣿⠀⠀⢹⡀⠘⡄⠀⠈⣧⠀⠀⠀⠀⠀⠀⠀⠀⠀⠀⠀⠀⠀⠀⠀⣸⠃⠀⢀⠇⢀⡎⠀⠀⢸⠀⠀⡇    ");
    reveal_strlit("⠀⠀⠀⠀⠀⠸⣼⡏⢧⠀⠀⠈⢧⠀⢳⡀⠈⡇⠀⠀⠀⠀⠀⠀⠀⠀⠀⠀⠀⠀⠀⢸⠃⠀⡼⠁⡸⠁⠀⠀⡸⢋⣧⠏     ");
    reveal_strlit("⢠⣿⠞⡟⠀⢸⣿⡇⠀⡟⣿⣷⡇⡄⣌⠙⠻⢿⣷⣿⣲⣤⣹⣦⡀⣰⣏⣡⠔⣫⣷⣿⠟⠋⣁⢠⢹⣷⣿⢻⠀⢸⣿⡇⠀⢹⠳⣽⡀");
    reveal_strlit("⠀⠀⠀⠀⠀⠀⠀⠀*⠰⣶⣄⠀⠀⠀⠀⠀⠀⠀⠀⠀⠀⠀⠀⠀⠀⠀⠀⠀⠀⠀⠀⠀⠀⠀⠀⠀⣀⣶⠆*        ");
}

/// The sprite text splits on newlines back into the sprite's rows, one band
/// of `BAND_HEIGHT` lines.
pub proof fn law_sprite_text_splits_into_rows(state: PetState)
    ensures
        split_lines(join_lines(pet_sprite(state))) == pet_sprite(state),
        split_lines(join_lines(pet_sprite(state))).len() == PetState::BAND_HEIGHT,
{
    lemma_sprite_rows_single_line(state);
    law_split_undoes_join(pet_sprite(state));
}

} // verus!

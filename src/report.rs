//! The text reports written in export mode, and the decoding of an autosave
//! file's contents through libsts.
use vstd::prelude::*;

verus! {

/// The fields of a decoded autosave that the reports show.
#[derive(Debug)]
pub struct SaveSummary {
    pub name: String,
    pub ascension_level: u32,
    pub gold: u32,
    pub current_health: u32,
    pub max_health: u32,
    pub play_time: u32,
    pub monster_list: Vec<String>,
    pub elite_monster_list: Vec<String>,
    pub boss_list: Vec<String>,
}

#[verifier::external_type_specification]
#[verifier::external_body]
pub struct ExSaveError(libsts::SaveError);

/// A save summary as plain values: name, ascension level, gold, current and
/// maximum health, play time, then the monster, elite and boss names.
pub type SaveFields = (
    Seq<char>,
    u32,
    u32,
    u32,
    u32,
    u32,
    Seq<Seq<char>>,
    Seq<Seq<char>>,
    Seq<Seq<char>>,
);

pub open spec fn names_view(v: Seq<String>) -> Seq<Seq<char>> {
    v.map_values(|s: String| s@)
}

pub open spec fn summary_fields(s: SaveSummary) -> SaveFields {
    (
        s.name@,
        s.ascension_level,
        s.gold,
        s.current_health,
        s.max_health,
        s.play_time,
        names_view(s.monster_list@),
        names_view(s.elite_monster_list@),
        names_view(s.boss_list@),
    )
}

/// What libsts decodes from `contents`, where it accepts them.
pub uninterp spec fn decoded_save(contents: Seq<char>) -> Option<SaveFields>;

/// Relies on libsts::Save::new: it decodes base64 (xor-ed with a fixed key)
/// or plain JSON, and its result depends on the contents alone.
#[verifier::external_body]
fn decode_save(contents: &str) -> (r: Result<SaveSummary, libsts::SaveError>)
    ensures
        r is Ok <==> decoded_save(contents@) is Some,
        r matches Ok(s) ==> decoded_save(contents@) == Some(summary_fields(s)),
{
    libsts::Save::new(contents).map(|s| SaveSummary {
        name: s.name,
        ascension_level: s.ascension_level,
        gold: s.gold,
        current_health: s.current_health,
        max_health: s.max_health,
        play_time: s.play_time,
        monster_list: s.monster_list,
        elite_monster_list: s.elite_monster_list,
        boss_list: s.boss_list,
    })
}

/// Why an export could not produce its reports.
#[derive(Debug, Clone, Copy, PartialEq, Eq, Structural)]
pub enum ExportError {
    /// The tracked file's contents are not a readable autosave.
    Undecodable,
}

/// Decodes the contents of an autosave file.
pub fn decode_autosave(contents: &str) -> (r: Result<SaveSummary, ExportError>)
    ensures
        r is Ok <==> decoded_save(contents@) is Some,
        r matches Ok(s) ==> decoded_save(contents@) == Some(summary_fields(s)),
        r is Err ==> r == Err::<SaveSummary, ExportError>(ExportError::Undecodable),
{
    match decode_save(contents) {
        Ok(s) => Ok(s),
        Err(_) => Err(ExportError::Undecodable),
    }
}

pub open spec fn digit_char(d: nat) -> char {
    if d == 0 { '0' } else if d == 1 { '1' } else if d == 2 { '2' } else if d == 3 { '3' }
    else if d == 4 { '4' } else if d == 5 { '5' } else if d == 6 { '6' } else if d == 7 { '7' }
    else if d == 8 { '8' } else { '9' }
}

/// Decimal digits of `n`, most significant first, without leading zeros.
pub open spec fn decimal(n: nat) -> Seq<char>
    decreases n,
{
    if n < 10 {
        seq![digit_char(n)]
    } else {
        decimal(n / 10).push(digit_char(n % 10))
    }
}

fn digit_str(d: u64) -> (r: &'static str)
    requires
        d < 10,
    ensures
        r@ == seq![digit_char(d as nat)],
{
    proof {
        reveal_strlit("0");
        reveal_strlit("1");
        reveal_strlit("2");
        reveal_strlit("3");
        reveal_strlit("4");
        reveal_strlit("5");
        reveal_strlit("6");
        reveal_strlit("7");
        reveal_strlit("8");
        reveal_strlit("9");
    }
    let r = if d == 0 { "0" } else if d == 1 { "1" } else if d == 2 { "2" } else if d == 3 { "3" }
    else if d == 4 { "4" } else if d == 5 { "5" } else if d == 6 { "6" } else if d == 7 { "7" }
    else if d == 8 { "8" } else { "9" };
    assert(r@ =~= seq![digit_char(d as nat)]);
    r
}

/// Appends the decimal digits of `n` to `out`.
fn push_decimal(out: &mut String, n: u64)
    ensures
        final(out)@ == old(out)@ + decimal(n as nat),
    decreases n,
{
    if n >= 10 {
        push_decimal(out, n / 10);
    }
    out.append(digit_str(n % 10));
    assert(out@ =~= old(out)@ + decimal(n as nat));
}

/// The basic-info report of a save.
pub open spec fn basic_info_text(s: SaveSummary) -> Seq<char> {
    "Player's Name: "@ + s.name@ + "\n"@ + "Ascension level: "@ + decimal(s.ascension_level as nat)
        + "\n"@ + "Gold: "@ + decimal(s.gold as nat) + "\n"@ + "Health: "@ + decimal(
        s.current_health as nat,
    ) + "/"@ + decimal(s.max_health as nat) + "\n"@ + "Play time: "@ + decimal(
        s.play_time as nat,
    ) + "\n"@
}

/// One line per name, numbered from 1: `<label><n>: <name>`.
pub open spec fn numbered_lines(label: Seq<char>, names: Seq<String>) -> Seq<char>
    decreases names.len(),
{
    if names.len() == 0 {
        Seq::empty()
    } else {
        numbered_lines(label, names.drop_last()) + label + decimal(names.len()) + ": "@
            + names.last()@ + "\n"@
    }
}

/// The enemies report of a save: monsters, then elites, then bosses.
pub open spec fn enemies_text(s: SaveSummary) -> Seq<char> {
    numbered_lines("Monster"@, s.monster_list@) + numbered_lines("Elite"@, s.elite_monster_list@)
        + numbered_lines("Boss"@, s.boss_list@)
}

/// The text of each placeholder report.
pub open spec fn empty_text() -> Seq<char> {
    "---\n"@
}

pub fn compose_txt_basic_info(save: &SaveSummary) -> (r: String)
    ensures
        r@ == basic_info_text(*save),
{
    let mut ret = String::new();
    ret.append("Player's Name: ");
    ret.append(save.name.as_str());
    ret.append("\n");
    ret.append("Ascension level: ");
    push_decimal(&mut ret, save.ascension_level as u64);
    ret.append("\n");
    ret.append("Gold: ");
    push_decimal(&mut ret, save.gold as u64);
    ret.append("\n");
    ret.append("Health: ");
    push_decimal(&mut ret, save.current_health as u64);
    ret.append("/");
    push_decimal(&mut ret, save.max_health as u64);
    ret.append("\n");
    ret.append("Play time: ");
    push_decimal(&mut ret, save.play_time as u64);
    ret.append("\n");
    assert(ret@ =~= basic_info_text(*save));
    ret
}

fn push_numbered_lines(out: &mut String, label: &str, names: &Vec<String>)
    ensures
        final(out)@ == old(out)@ + numbered_lines(label@, names@),
{
    let mut i: usize = 0;
    while i < names.len()
        invariant
            i <= names@.len(),
            out@ == old(out)@ + numbered_lines(label@, names@.subrange(0, i as int)),
        decreases names@.len() - i,
    {
        let ghost before = out@;
        out.append(label);
        push_decimal(out, (i as u64) + 1);
        out.append(": ");
        out.append(names[i].as_str());
        out.append("\n");
        proof {
            let next = names@.subrange(0, i as int + 1);
            assert(next.drop_last() =~= names@.subrange(0, i as int));
            assert(next.last() == names@[i as int]);
            assert(out@ =~= old(out)@ + numbered_lines(label@, next));
        }
        i = i + 1;
    }
    assert(names@.subrange(0, names@.len() as int) =~= names@);
}

pub fn compose_txt_enemies(save: &SaveSummary) -> (r: String)
    ensures
        r@ == enemies_text(*save),
{
    let mut ret = String::new();
    push_numbered_lines(&mut ret, "Monster", &save.monster_list);
    push_numbered_lines(&mut ret, "Elite", &save.elite_monster_list);
    push_numbered_lines(&mut ret, "Boss", &save.boss_list);
    assert(ret@ =~= enemies_text(*save));
    ret
}

pub fn compose_txt_empty() -> (r: String)
    ensures
        r@ == empty_text(),
{
    String::from_str("---\n")
}

} // verus!

//! Reading what the user types: modes, scenarios, switches and fan curves.

use crate::fan::{temps_sorted, FanCurve, FanCurvePoint, FanMode};
use crate::scenario::{ShiftMode, UserScenario};
use crate::text::{
    chars_of, decimal_text, format_u8, lowered, matches_keyword, parse_u8, unsigned_byte,
};
use vstd::prelude::*;
use vstd::string::StrSliceExecFns;
use vstd::string::StringExecFns;

verus! {

/// `prefix`, then `given`, then `suffix`.
pub open spec fn framed(prefix: Seq<char>, given: Seq<char>, suffix: Seq<char>) -> Seq<char> {
    prefix + given + suffix
}

/// `prefix`, then `given`, then `suffix`.
fn frame(prefix: &str, given: &str, suffix: &str) -> (message: String)
    ensures
        message@ == framed(prefix@, given@, suffix@),
{
    let mut message = String::from_str(prefix);
    message.append(given);
    message.append(suffix);
    message
}

/// `prefix`, then `given`.
fn prefixed(prefix: &str, given: &str) -> (message: String)
    ensures
        message@ == prefix@ + given@,
{
    let mut message = String::from_str(prefix);
    message.append(given);
    message
}

/// The fan mode that a word names, in capitals or not: the mode's name or
/// its number.
pub open spec fn fan_mode_named(word: Seq<char>) -> Option<FanMode> {
    let w = lowered(word);
    if w == "auto"@ || w == "0"@ {
        Some(FanMode::Auto)
    } else if w == "silent"@ || w == "1"@ {
        Some(FanMode::Silent)
    } else if w == "basic"@ || w == "2"@ {
        Some(FanMode::Basic)
    } else if w == "advanced"@ || w == "3"@ {
        Some(FanMode::Advanced)
    } else {
        None
    }
}

/// The scenario that a word names, in capitals or not.
pub open spec fn scenario_named(word: Seq<char>) -> Option<UserScenario> {
    let w = lowered(word);
    if w == "silent"@ || w == "quiet"@ {
        Some(UserScenario::Silent)
    } else if w == "balanced"@ || w == "comfort"@ {
        Some(UserScenario::Balanced)
    } else if w == "highperf"@ || w == "performance"@ || w == "sport"@ {
        Some(UserScenario::HighPerformance)
    } else if w == "turbo"@ || w == "extreme"@ {
        Some(UserScenario::Turbo)
    } else if w == "battery"@ || w == "superbattery"@ || w == "eco"@ {
        Some(UserScenario::SuperBattery)
    } else {
        None
    }
}

/// The shift mode that a word names, in capitals or not.
pub open spec fn shift_mode_named(word: Seq<char>) -> Option<ShiftMode> {
    let w = lowered(word);
    if w == "eco"@ || w == "silent"@ {
        Some(ShiftMode::EcoSilent)
    } else if w == "comfort"@ || w == "balanced"@ {
        Some(ShiftMode::Comfort)
    } else if w == "sport"@ || w == "performance"@ {
        Some(ShiftMode::Sport)
    } else if w == "turbo"@ || w == "extreme"@ {
        Some(ShiftMode::Turbo)
    } else {
        None
    }
}

/// The switch position that a word names, in capitals or not.
pub open spec fn switch_named(word: Seq<char>) -> Option<bool> {
    let w = lowered(word);
    if w == "on"@ || w == "true"@ || w == "1"@ || w == "yes"@ || w == "enable"@ {
        Some(true)
    } else if w == "off"@ || w == "false"@ || w == "0"@ || w == "no"@ || w == "disable"@ {
        Some(false)
    } else {
        None
    }
}

/// The fan mode that `s` names, or a message that quotes `s` and lists the
/// names.
pub fn parse_fan_mode(s: &str) -> (mode: Result<FanMode, String>)
    ensures
        match fan_mode_named(s@) {
            Some(m) => mode == Ok::<FanMode, String>(m),
            None => mode is Err && mode->Err_0@ == framed(
                "Invalid fan mode: "@,
                s@,
                ". Use: auto, silent, basic, advanced"@,
            ),
        },
{
    let word = chars_of(s);
    if matches_keyword(&word, "auto") || matches_keyword(&word, "0") {
        Ok(FanMode::Auto)
    } else if matches_keyword(&word, "silent") || matches_keyword(&word, "1") {
        Ok(FanMode::Silent)
    } else if matches_keyword(&word, "basic") || matches_keyword(&word, "2") {
        Ok(FanMode::Basic)
    } else if matches_keyword(&word, "advanced") || matches_keyword(&word, "3") {
        Ok(FanMode::Advanced)
    } else {
        Err(frame("Invalid fan mode: ", s, ". Use: auto, silent, basic, advanced"))
    }
}

/// The scenario that `s` names, or a message that quotes `s` and lists the
/// names.
pub fn parse_scenario(s: &str) -> (scenario: Result<UserScenario, String>)
    ensures
        match scenario_named(s@) {
            Some(named) => scenario == Ok::<UserScenario, String>(named),
            None => scenario is Err && scenario->Err_0@ == framed(
                "Invalid scenario: "@,
                s@,
                ". Use: silent, balanced, highperf, turbo, battery"@,
            ),
        },
{
    let word = chars_of(s);
    if matches_keyword(&word, "silent") || matches_keyword(&word, "quiet") {
        Ok(UserScenario::Silent)
    } else if matches_keyword(&word, "balanced") || matches_keyword(&word, "comfort") {
        Ok(UserScenario::Balanced)
    } else if matches_keyword(&word, "highperf") || matches_keyword(&word, "performance")
        || matches_keyword(&word, "sport") {
        Ok(UserScenario::HighPerformance)
    } else if matches_keyword(&word, "turbo") || matches_keyword(&word, "extreme") {
        Ok(UserScenario::Turbo)
    } else if matches_keyword(&word, "battery") || matches_keyword(&word, "superbattery")
        || matches_keyword(&word, "eco") {
        Ok(UserScenario::SuperBattery)
    } else {
        Err(frame("Invalid scenario: ", s, ". Use: silent, balanced, highperf, turbo, battery"))
    }
}

/// The shift mode that `s` names, or a message that quotes `s` and lists
/// the names.
pub fn parse_shift_mode(s: &str) -> (mode: Result<ShiftMode, String>)
    ensures
        match shift_mode_named(s@) {
            Some(named) => mode == Ok::<ShiftMode, String>(named),
            None => mode is Err && mode->Err_0@ == framed(
                "Invalid shift mode: "@,
                s@,
                ". Use: eco, comfort, sport, turbo"@,
            ),
        },
{
    let word = chars_of(s);
    if matches_keyword(&word, "eco") || matches_keyword(&word, "silent") {
        Ok(ShiftMode::EcoSilent)
    } else if matches_keyword(&word, "comfort") || matches_keyword(&word, "balanced") {
        Ok(ShiftMode::Comfort)
    } else if matches_keyword(&word, "sport") || matches_keyword(&word, "performance") {
        Ok(ShiftMode::Sport)
    } else if matches_keyword(&word, "turbo") || matches_keyword(&word, "extreme") {
        Ok(ShiftMode::Turbo)
    } else {
        Err(frame("Invalid shift mode: ", s, ". Use: eco, comfort, sport, turbo"))
    }
}

/// The switch position that `s` names, or a message that quotes `s` and
/// lists the names.
pub fn parse_bool(s: &str) -> (switch: Result<bool, String>)
    ensures
        match switch_named(s@) {
            Some(named) => switch == Ok::<bool, String>(named),
            None => switch is Err && switch->Err_0@ == framed(
                "Invalid value: "@,
                s@,
                ". Use: on/off, true/false, 1/0"@,
            ),
        },
{
    let word = chars_of(s);
    if matches_keyword(&word, "on") || matches_keyword(&word, "true") || matches_keyword(
        &word,
        "1",
    ) || matches_keyword(&word, "yes") || matches_keyword(&word, "enable") {
        Ok(true)
    } else if matches_keyword(&word, "off") || matches_keyword(&word, "false") || matches_keyword(
        &word,
        "0",
    ) || matches_keyword(&word, "no") || matches_keyword(&word, "disable") {
        Ok(false)
    } else {
        Err(frame("Invalid value: ", s, ". Use: on/off, true/false, 1/0"))
    }
}

/// The index of the first `mark` at or after `from`; the length of the
/// text where there is none.
pub open spec fn find_char(text: Seq<char>, mark: char, from: int) -> int
    decreases text.len() - from,
{
    if from < 0 || from >= text.len() {
        text.len() as int
    } else if text[from] == mark {
        from
    } else {
        find_char(text, mark, from + 1)
    }
}

/// The point that `pair` denotes: a temperature and a speed, each a byte
/// in decimal, with one colon between them, and the speed at most 100.
/// Otherwise a message that says what is wrong.
#[verifier::opaque]
pub open spec fn point_from(pair: Seq<char>) -> Result<FanCurvePoint, Seq<char>> {
    let colon = find_char(pair, ':', 0);
    if colon >= pair.len() || find_char(pair, ':', colon + 1) < pair.len() {
        Err(framed("Invalid curve point format: "@, pair, ". Use temp:speed"@))
    } else {
        let temp_text = pair.subrange(0, colon);
        let speed_text = pair.subrange(colon + 1, pair.len() as int);
        match unsigned_byte(temp_text) {
            None => Err("Invalid temperature: "@ + temp_text),
            Some(temp) => match unsigned_byte(speed_text) {
                None => Err("Invalid speed: "@ + speed_text),
                Some(speed) => if speed > 100 {
                    Err("Speed must be 0-100, got: "@ + decimal_text(speed as nat))
                } else {
                    Ok(FanCurvePoint { temp, speed })
                },
            },
        }
    }
}

/// `points` before what `rest` holds, or the message of `rest`.
pub open spec fn prepended(
    points: Seq<FanCurvePoint>,
    rest: Result<Seq<FanCurvePoint>, Seq<char>>,
) -> Result<Seq<FanCurvePoint>, Seq<char>> {
    match rest {
        Ok(more) => Ok(points + more),
        Err(message) => Err(message),
    }
}

/// The points that the text from `start` on denotes, read up to `at`
/// without a comma so far: pairs with commas between them. The message
/// is that of the first pair that denotes no point.
#[verifier::opaque]
pub open spec fn points_from(text: Seq<char>, start: int, at: int) -> Result<
    Seq<FanCurvePoint>,
    Seq<char>,
>
    decreases text.len() - at,
{
    if at < 0 || at >= text.len() {
        match point_from(text.subrange(start, text.len() as int)) {
            Ok(point) => Ok(seq![point]),
            Err(message) => Err(message),
        }
    } else if text[at] == ',' {
        match point_from(text.subrange(start, at)) {
            Ok(point) => prepended(seq![point], points_from(text, at + 1, at + 1)),
            Err(message) => Err(message),
        }
    } else {
        points_from(text, start, at + 1)
    }
}

/// The number of points at the start of `points` up to the last whose
/// temperature is at most `temp`.
pub open spec fn insertion_index(points: Seq<FanCurvePoint>, temp: u8) -> int
    decreases points.len(),
{
    if points.len() == 0 {
        0
    } else if points.last().temp <= temp {
        points.len() as int
    } else {
        insertion_index(points.drop_last(), temp)
    }
}

/// The points in the order of their temperatures; points of one
/// temperature keep the order in which they came.
pub open spec fn sorted_by_temp(points: Seq<FanCurvePoint>) -> Seq<FanCurvePoint>
    decreases points.len(),
{
    if points.len() == 0 {
        points
    } else {
        let before = sorted_by_temp(points.drop_last());
        before.insert(insertion_index(before, points.last().temp), points.last())
    }
}

/// The insertion index lies within the sequence; in a sorted sequence
/// every point before it has a temperature of at most `temp`, and every
/// point from it on a higher one.
pub proof fn lemma_insertion_index(points: Seq<FanCurvePoint>, temp: u8)
    requires
        temps_sorted(points),
    ensures
        0 <= insertion_index(points, temp) <= points.len(),
        forall|i: int|
            0 <= i < insertion_index(points, temp) ==> (#[trigger] points[i]).temp <= temp,
        forall|i: int|
            insertion_index(points, temp) <= i < points.len() ==> (#[trigger] points[i]).temp
                > temp,
    decreases points.len(),
{
    if points.len() > 0 {
        if points.last().temp <= temp {
            assert forall|i: int| 0 <= i < points.len() implies (#[trigger] points[i]).temp
                <= temp by {
                assert(points[i].temp <= points[points.len() - 1].temp);
            }
        } else {
            let head = points.drop_last();
            assert(temps_sorted(head)) by {
                assert forall|i: int, j: int| 0 <= i <= j < head.len() implies head[i].temp
                    <= head[j].temp by {
                    assert(points[i].temp <= points[j].temp);
                }
            }
            lemma_insertion_index(head, temp);
            let index = insertion_index(head, temp);
            assert forall|i: int| 0 <= i < index implies (#[trigger] points[i]).temp <= temp by {
                assert(points[i] == head[i]);
            }
            assert forall|i: int| index <= i < points.len() implies (#[trigger] points[i]).temp
                > temp by {
                if i < head.len() {
                    assert(points[i] == head[i]);
                } else {
                    assert(points[i] == points.last());
                }
            }
        }
    }
}

/// Sorting keeps every point, as often as it occurs, and puts the
/// temperatures in order.
pub proof fn lemma_sorted_by_temp(points: Seq<FanCurvePoint>)
    ensures
        sorted_by_temp(points).len() == points.len(),
        sorted_by_temp(points).to_multiset() == points.to_multiset(),
        temps_sorted(sorted_by_temp(points)),
    decreases points.len(),
{
    broadcast use vstd::seq_lib::group_to_multiset_ensures;

    if points.len() == 0 {
    } else {
        let head = points.drop_last();
        let last = points.last();
        lemma_sorted_by_temp(head);
        let before = sorted_by_temp(head);
        lemma_insertion_index(before, last.temp);
        let at = insertion_index(before, last.temp);
        let after = before.insert(at, last);
        assert(points =~= head.push(last));
        assert(after.to_multiset() =~= before.to_multiset().insert(last)) by {
            vstd::seq_lib::to_multiset_insert(before, at, last);
        }
        assert(points.to_multiset() =~= head.to_multiset().insert(last));
        assert forall|i: int, j: int| 0 <= i <= j < after.len() implies after[i].temp
            <= after[j].temp by {
            if i < at && j > at {
                assert(before[i].temp <= last.temp);
                assert(before[j - 1].temp > last.temp);
            } else if i < at && j < at {
                assert(before[i].temp <= before[j].temp);
            } else if i > at {
                assert(before[i - 1].temp <= before[j - 1].temp);
            } else if i == at && j > at {
                assert(before[j - 1].temp > last.temp);
            } else if j == at && i < at {
                assert(before[i].temp <= last.temp);
            }
        }
    }
}

/// The points in the order of their temperatures; points of one
/// temperature keep the order in which they came.
pub fn sort_by_temp(points: &Vec<FanCurvePoint>) -> (sorted: Vec<FanCurvePoint>)
    ensures
        sorted@ == sorted_by_temp(points@),
{
    let mut sorted: Vec<FanCurvePoint> = Vec::new();
    let mut done: usize = 0;
    assert(points@.take(0) =~= Seq::<FanCurvePoint>::empty());
    while done < points.len()
        invariant
            done <= points.len(),
            sorted@ == sorted_by_temp(points@.take(done as int)),
            sorted@.len() == done,
        decreases points.len() - done,
    {
        let point = points[done];
        let mut at: usize = sorted.len();
        assert(sorted@.take(at as int) =~= sorted@);
        while at > 0 && sorted[at - 1].temp > point.temp
            invariant
                at <= sorted@.len(),
                insertion_index(sorted@, point.temp) == insertion_index(
                    sorted@.take(at as int),
                    point.temp,
                ),
            decreases at,
        {
            assert(sorted@.take(at as int).drop_last() =~= sorted@.take(at - 1));
            at -= 1;
        }
        proof {
            assert(sorted@.take(sorted@.len() as int) =~= sorted@);
            let next = points@.take(done + 1);
            assert(next.drop_last() =~= points@.take(done as int));
            assert(next.last() == point);
            if at > 0 {
                assert(sorted@.take(at as int).last() == sorted@[at - 1]);
            }
        }
        sorted.insert(at, point);
        done += 1;
    }
    assert(points@.take(done as int) =~= points@);
    sorted
}

/// The point that the characters from `from` up to `to` denote.
fn parse_point(source: &str, text: &Vec<char>, from: usize, to: usize) -> (point: Result<
    FanCurvePoint,
    String,
>)
    requires
        text@ == source@,
        from <= to <= text@.len(),
    ensures
        match point_from(text@.subrange(from as int, to as int)) {
            Ok(p) => point == Ok::<FanCurvePoint, String>(p),
            Err(message) => point is Err && point->Err_0@ == message,
        },
{
    reveal(point_from);
    let ghost pair = text@.subrange(from as int, to as int);
    let mut colon: usize = from;
    while colon < to && text[colon] != ':'
        invariant
            from <= colon <= to <= text@.len(),
            pair == text@.subrange(from as int, to as int),
            find_char(pair, ':', 0) == find_char(pair, ':', colon - from),
        decreases to - colon,
    {
        assert(pair[colon - from] == text@[colon as int]);
        colon += 1;
    }
    proof {
        if colon < to {
            assert(pair[colon - from] == text@[colon as int]);
        }
    }
    if colon >= to {
        return Err(
            frame(
                "Invalid curve point format: ",
                source.substring_char(from, to),
                ". Use temp:speed",
            ),
        );
    }
    let mut second: usize = colon + 1;
    while second < to && text[second] != ':'
        invariant
            colon < second <= to <= text@.len(),
            from <= colon,
            pair == text@.subrange(from as int, to as int),
            find_char(pair, ':', colon - from + 1) == find_char(pair, ':', second - from),
        decreases to - second,
    {
        assert(pair[second - from] == text@[second as int]);
        second += 1;
    }
    proof {
        if second < to {
            assert(pair[second - from] == text@[second as int]);
        }
    }
    if second < to {
        return Err(
            frame(
                "Invalid curve point format: ",
                source.substring_char(from, to),
                ". Use temp:speed",
            ),
        );
    }
    proof {
        assert(text@.subrange(from as int, colon as int) =~= pair.subrange(0, colon - from));
        assert(text@.subrange(colon + 1, to as int) =~= pair.subrange(
            colon - from + 1,
            pair.len() as int,
        ));
    }
    let temp = match parse_u8(text, from, colon) {
        Some(temp) => temp,
        None => {
            return Err(prefixed("Invalid temperature: ", source.substring_char(from, colon)));
        },
    };
    let speed = match parse_u8(text, colon + 1, to) {
        Some(speed) => speed,
        None => {
            return Err(prefixed("Invalid speed: ", source.substring_char(colon + 1, to)));
        },
    };
    if speed > 100 {
        let digits = format_u8(speed);
        return Err(prefixed("Speed must be 0-100, got: ", digits.as_str()));
    }
    Ok(FanCurvePoint { temp, speed })
}

/// Putting `points` and then one more point before a rest is putting the
/// longer sequence before it.
proof fn lemma_prepended_push(
    points: Seq<FanCurvePoint>,
    point: FanCurvePoint,
    rest: Result<Seq<FanCurvePoint>, Seq<char>>,
)
    ensures
        prepended(points, prepended(seq![point], rest)) == prepended(points.push(point), rest),
{
    match rest {
        Ok(more) => {
            assert(points + (seq![point] + more) =~= points.push(point) + more);
        },
        Err(_) => {},
    }
}

/// At a comma the pair before it is read, and the reading goes on behind
/// the comma.
proof fn lemma_points_at_comma(text: Seq<char>, start: int, at: int)
    requires
        0 <= at < text.len(),
        text[at] == ',',
    ensures
        points_from(text, start, at) == match point_from(text.subrange(start, at)) {
            Ok(point) => prepended(seq![point], points_from(text, at + 1, at + 1)),
            Err(message) => Err(message),
        },
{
    reveal(points_from);
}

/// A character that is no comma belongs to the pair being read.
proof fn lemma_points_within_pair(text: Seq<char>, start: int, at: int)
    requires
        0 <= at < text.len(),
        text[at] != ',',
    ensures
        points_from(text, start, at) == points_from(text, start, at + 1),
{
    reveal(points_from);
}

/// At the end of the text the last pair is read.
proof fn lemma_points_at_end(text: Seq<char>, start: int)
    ensures
        points_from(text, start, text.len() as int) == match point_from(
            text.subrange(start, text.len() as int),
        ) {
            Ok(point) => Ok::<Seq<FanCurvePoint>, Seq<char>>(seq![point]),
            Err(message) => Err(message),
        },
{
    reveal(points_from);
}

/// Putting nothing before a rest leaves the rest as it is.
proof fn lemma_prepended_nothing(rest: Result<Seq<FanCurvePoint>, Seq<char>>)
    ensures
        prepended(Seq::empty(), rest) == rest,
{
    match rest {
        Ok(more) => {
            assert(Seq::<FanCurvePoint>::empty() + more =~= more);
        },
        Err(_) => {},
    }
}

/// The curve that `points_str` denotes: pairs `temp:speed` with commas
/// between them, put in the order of their temperatures. Otherwise the
/// message of the first pair that denotes no point.
pub fn parse_curve_points(points_str: &str) -> (curve: Result<FanCurve, String>)
    ensures
        match points_from(points_str@, 0, 0) {
            Ok(points) => curve is Ok && curve->Ok_0@ == sorted_by_temp(points),
            Err(message) => curve is Err && curve->Err_0@ == message,
        },
{
    let text = chars_of(points_str);
    let ghost whole = points_from(text@, 0, 0);
    let mut points: Vec<FanCurvePoint> = Vec::new();
    let mut start: usize = 0;
    let mut at: usize = 0;
    proof {
        lemma_prepended_nothing(whole);
    }
    while at < text.len()
        invariant
            text@ == points_str@,
            start <= at <= text@.len(),
            whole == points_from(points_str@, 0, 0),
            whole == prepended(points@, points_from(text@, start as int, at as int)),
        decreases text@.len() - at,
    {
        if text[at] == ',' {
            let ghost before = points@;
            let ghost rest = points_from(text@, at + 1, at + 1);
            let parsed = parse_point(points_str, &text, start, at);
            proof {
                lemma_points_at_comma(text@, start as int, at as int);
            }
            match parsed {
                Ok(point) => {
                    proof {
                        assert(points_from(text@, start as int, at as int) == prepended(
                            seq![point],
                            rest,
                        ));
                        lemma_prepended_push(before, point, rest);
                    }
                    points.push(point);
                },
                Err(message) => {
                    assert(points_from(text@, start as int, at as int) == Err::<
                        Seq<FanCurvePoint>,
                        Seq<char>,
                    >(message@));
                    return Err(message);
                },
            }
            start = at + 1;
        } else {
            proof {
                lemma_points_within_pair(text@, start as int, at as int);
            }
        }
        at += 1;
    }
    let ghost before = points@;
    let parsed = parse_point(points_str, &text, start, at);
    proof {
        lemma_points_at_end(text@, start as int);
    }
    match parsed {
        Ok(point) => {
            proof {
                assert(points_from(text@, start as int, at as int) == Ok::<
                    Seq<FanCurvePoint>,
                    Seq<char>,
                >(seq![point]));
                assert(before + seq![point] =~= before.push(point));
            }
            points.push(point);
        },
        Err(message) => {
            assert(points_from(text@, start as int, at as int) == Err::<
                Seq<FanCurvePoint>,
                Seq<char>,
            >(message@));
            return Err(message);
        },
    }
    let sorted = sort_by_temp(&points);
    Ok(FanCurve { points: sorted })
}

/// How warm a temperature is, for the colour it is shown in.
#[derive(Debug, Clone, Copy, PartialEq, Eq, Structural)]
pub enum TempBand {
    /// Up to 50 degrees.
    Cool,
    /// From 51 to 70 degrees.
    Warm,
    /// From 71 to 85 degrees.
    Hot,
    /// Above 85 degrees.
    Critical,
}

/// The band of a temperature.
pub open spec fn band_of(temp: u8) -> TempBand {
    if temp <= 50 {
        TempBand::Cool
    } else if temp <= 70 {
        TempBand::Warm
    } else if temp <= 85 {
        TempBand::Hot
    } else {
        TempBand::Critical
    }
}

/// The band of a temperature.
pub fn get_temp_color(temp: u8) -> (band: TempBand)
    ensures
        band == band_of(temp),
{
    if temp <= 50 {
        TempBand::Cool
    } else if temp <= 70 {
        TempBand::Warm
    } else if temp <= 85 {
        TempBand::Hot
    } else {
        TempBand::Critical
    }
}

/// How full a bar is, for the colour it is shown in.
#[derive(Debug, Clone, Copy, PartialEq, Eq, Structural)]
pub enum BarLevel {
    /// Less than half.
    Low,
    /// From a half to less than three quarters.
    Medium,
    /// Three quarters or more.
    High,
}

/// A bar of `filled + empty` cells.
#[derive(Debug, Clone, Copy, PartialEq, Eq, Structural)]
pub struct ProgressBar {
    pub filled: usize,
    pub empty: usize,
    pub level: BarLevel,
}

/// The part of `max` that `value` comes to, in percent and at most 100.
pub open spec fn ratio_percent(value: u8, max: u8) -> int {
    if value >= max {
        100
    } else {
        value * 100 / (max as int)
    }
}

/// The bar for `value` out of `max`, `width` cells wide: the filled cells
/// are the part of `width` that `value` is of `max`, rounded down.
pub open spec fn bar_of(value: u8, max: u8, width: usize) -> ProgressBar {
    let filled = if value >= max {
        width as int
    } else {
        value * width / (max as int)
    };
    ProgressBar {
        filled: filled as usize,
        empty: (width - filled) as usize,
        level: if ratio_percent(value, max) < 50 {
            BarLevel::Low
        } else if ratio_percent(value, max) < 75 {
            BarLevel::Medium
        } else {
            BarLevel::High
        },
    }
}

/// The bar for `value` out of `max`, `width` cells wide.
pub fn create_progress_bar(value: u8, max: u8, width: usize) -> (bar: ProgressBar)
    ensures
        bar == bar_of(value, max, width),
        bar.filled + bar.empty == width,
{
    let filled: usize = if value >= max {
        width
    } else {
        assert(value * width <= 255 * 0xFFFF_FFFF_FFFF_FFFF) by (nonlinear_arith)
            requires
                value <= 255,
                width <= 0xFFFF_FFFF_FFFF_FFFF,
        ;
        let scaled: u128 = value as u128 * width as u128;
        let cells: u128 = scaled / (max as u128);
        assert(cells <= width) by (nonlinear_arith)
            requires
                cells == scaled / (max as u128),
                scaled == value * width,
                value < max,
                max > 0,
        ;
        cells as usize
    };
    let percent: u32 = if value >= max {
        100
    } else {
        (value as u32 * 100) / (max as u32)
    };
    let level = if percent < 50 {
        BarLevel::Low
    } else if percent < 75 {
        BarLevel::Medium
    } else {
        BarLevel::High
    };
    ProgressBar { filled, empty: width - filled, level }
}

/// The effective user id of the process, as `nix::unistd::geteuid`
/// reports it. Nothing is claimed of the result, which depends on who
/// runs the process.
#[verifier::external_body]
fn effective_user_id() -> (uid: u32) {
    nix::unistd::geteuid().as_raw()
}

/// The user id of the superuser.
pub const ROOT_USER_ID: u32 = 0;

/// Who runs the process, and whether that user is to be warned of lacking
/// the rights of the superuser.
#[derive(Debug, Clone, Copy, PartialEq, Eq, Structural)]
pub struct RootCheck {
    /// The effective user id.
    pub uid: u32,
    pub warn: bool,
}

/// Whether a process with this effective user id lacks the rights of the
/// superuser, so that the user is to be warned.
pub fn lacks_root(uid: u32) -> (warn: bool)
    ensures
        warn == (uid != ROOT_USER_ID),
{
    uid != ROOT_USER_ID
}

/// Asks who runs the process. The user is to be warned exactly when the
/// effective user id is not that of the superuser.
pub fn check_root() -> (check: RootCheck)
    ensures
        check.warn == (check.uid != ROOT_USER_ID),
{
    let uid = effective_user_id();
    RootCheck { uid, warn: lacks_root(uid) }
}

} // verus!

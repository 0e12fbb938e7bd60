//! Text codecs for the persisted settings resources.
//!
//! The credentials resource is two lines (network id, secret); the
//! locations resource is one comma-joined line per location, each line
//! terminated by a newline. Writing is a full render of the resource
//! text; reading parses the whole text back. Both directions are exact,
//! and a write-then-read round trip restores the values field for field.

use vstd::prelude::*;

use crate::messages::{CityInfo, WifiCredentials};
use crate::textcodec::{
    lemma_join_free_of, lemma_join_push, lemma_split_of_join, no_sep, spec_join, spec_split,
    split_on, str_views,
};

verus! {

/// A field may stand in a resource only if it contains neither of the
/// separators the codec uses.
pub open spec fn field_clean(f: Seq<char>) -> bool {
    !f.contains(',') && !f.contains('\n')
}

/// Whether every field of a location is free of the separators.
pub open spec fn city_clean(c: CityInfo) -> bool {
    &&& field_clean(c.city_name@)
    &&& field_clean(c.state@)
    &&& field_clean(c.zipcode@)
    &&& field_clean(c.timezone@)
}

/// Whether every location of the list has clean fields.
pub open spec fn cities_clean(cs: Seq<CityInfo>) -> bool {
    forall|i: int| 0 <= i < cs.len() ==> city_clean(#[trigger] cs[i])
}

/// The four fields of one location, in resource order.
pub open spec fn city_fields(c: CityInfo) -> Seq<Seq<char>> {
    seq![c.city_name@, c.state@, c.zipcode@, c.timezone@]
}

/// One line of the locations resource: the four fields comma-joined.
pub open spec fn spec_city_line(c: CityInfo) -> Seq<char> {
    c.city_name@ + seq![','] + c.state@ + seq![','] + c.zipcode@ + seq![','] + c.timezone@
}

/// A location line is the comma-join of its four fields.
pub proof fn lemma_city_line_as_join(c: CityInfo)
    ensures
        spec_city_line(c) == spec_join(city_fields(c), ','),
{
    let fs = city_fields(c);
    let t1 = seq![c.state@, c.zipcode@, c.timezone@];
    let t2 = seq![c.zipcode@, c.timezone@];
    let t3 = seq![c.timezone@];
    assert(fs.drop_first() =~~= t1);
    assert(t1.drop_first() =~~= t2);
    assert(t2.drop_first() =~~= t3);
    assert(spec_join(t3, ',') == c.timezone@);
    assert(spec_join(t2, ',') == t2[0] + seq![','] + spec_join(t3, ','));
    assert(spec_join(t1, ',') == t1[0] + seq![','] + spec_join(t2, ','));
    assert(spec_join(fs, ',') == fs[0] + seq![','] + spec_join(t1, ','));
    assert(spec_join(fs, ',') =~= spec_city_line(c));
}

/// The whole locations resource text.
pub open spec fn spec_cities_text(cs: Seq<CityInfo>) -> Seq<char>
    decreases cs.len(),
{
    if cs.len() == 0 {
        Seq::<char>::empty()
    } else {
        spec_cities_text(cs.drop_last()) + spec_city_line(cs.last()) + seq!['\n']
    }
}

/// The lines of every location, in order.
pub open spec fn city_lines(cs: Seq<CityInfo>) -> Seq<Seq<char>> {
    cs.map_values(|c: CityInfo| spec_city_line(c))
}

/// The locations text is the newline-join of the lines plus a trailing
/// newline, i.e. the join of the lines with one empty part appended.
pub proof fn lemma_cities_text_as_join(cs: Seq<CityInfo>)
    ensures
        spec_cities_text(cs) == spec_join(city_lines(cs).push(Seq::<char>::empty()), '\n'),
    decreases cs.len(),
{
    if cs.len() == 0 {
        assert(city_lines(cs).push(Seq::<char>::empty()) =~~= seq![Seq::<char>::empty()]);
        assert(spec_join(seq![Seq::<char>::empty()], '\n') =~= spec_cities_text(cs));
    } else {
        let ds = cs.drop_last();
        let line = spec_city_line(cs.last());
        lemma_cities_text_as_join(ds);
        assert(city_lines(cs) =~~= city_lines(ds).push(line));
        if ds.len() == 0 {
            assert(city_lines(cs) =~~= seq![line]);
            lemma_join_push(seq![line], Seq::<char>::empty(), '\n');
            assert(spec_join(seq![line], '\n') == line);
            assert(spec_cities_text(cs) =~= spec_join(
                city_lines(cs).push(Seq::<char>::empty()),
                '\n',
            ));
        } else {
            lemma_join_push(city_lines(ds), line, '\n');
            lemma_join_push(city_lines(ds).push(line), Seq::<char>::empty(), '\n');
            lemma_join_push(city_lines(ds), Seq::<char>::empty(), '\n');
            assert(spec_cities_text(cs) =~= spec_join(
                city_lines(cs).push(Seq::<char>::empty()),
                '\n',
            ));
        }
    }
}

/// Renders the locations resource text.
pub fn render_cities_text(cities: &Vec<CityInfo>) -> (r: String)
    ensures
        r@ == spec_cities_text(cities@),
{
    proof {
        reveal_strlit(",");
        reveal_strlit("\n");
    }
    let mut r = String::new();
    let mut i: usize = 0;
    proof {
        assert(cities@.subrange(0, 0) =~= Seq::<CityInfo>::empty());
    }
    while i < cities.len()
        invariant
            0 <= i <= cities@.len(),
            r@ == spec_cities_text(cities@.subrange(0, i as int)),
        decreases cities@.len() - i,
    {
        let c = &cities[i];
        r.append(c.city_name.as_str());
        r.append(",");
        r.append(c.state.as_str());
        r.append(",");
        r.append(c.zipcode.as_str());
        r.append(",");
        r.append(c.timezone.as_str());
        r.append("\n");
        i = i + 1;
        proof {
            reveal_strlit(",");
            reveal_strlit("\n");
            let pre = cities@.subrange(0, i as int);
            assert(pre.drop_last() =~= cities@.subrange(0, i - 1));
            assert(pre.last() == cities@[i - 1]);
            assert(","@ =~= seq![',']);
            assert("\n"@ =~= seq!['\n']);
            assert(r@ =~= spec_cities_text(pre));
        }
    }
    proof {
        assert(cities@.subrange(0, cities@.len() as int) =~= cities@);
    }
    r
}

/// The parsed fields of one location line: defined when the line has
/// exactly four comma-separated fields.
pub ghost struct CityFields {
    pub name: Seq<char>,
    pub state: Seq<char>,
    pub zip: Seq<char>,
    pub tz: Seq<char>,
}

/// Parses one location line at the specification level.
pub open spec fn spec_parse_city_line(line: Seq<char>) -> Option<CityFields> {
    let fs = spec_split(line, ',');
    if fs.len() == 4 {
        Some(CityFields { name: fs[0], state: fs[1], zip: fs[2], tz: fs[3] })
    } else {
        None
    }
}

/// The lines of a resource text: the newline-split fields, less the one
/// empty field a trailing newline produces.
pub open spec fn spec_resource_lines(t: Seq<char>) -> Seq<Seq<char>> {
    let parts = spec_split(t, '\n');
    if parts.len() > 1 && parts.last().len() == 0 {
        parts.drop_last()
    } else {
        parts
    }
}

/// Parses every line, failing when any line is malformed.
pub open spec fn spec_parse_lines(lines: Seq<Seq<char>>) -> Option<Seq<CityFields>>
    decreases lines.len(),
{
    if lines.len() == 0 {
        Some(Seq::<CityFields>::empty())
    } else {
        match spec_parse_city_line(lines.first()) {
            Option::None => None,
            Option::Some(f) => match spec_parse_lines(lines.drop_first()) {
                Option::None => None,
                Option::Some(rest) => Some(seq![f] + rest),
            },
        }
    }
}

/// Parses the whole locations resource text: the empty text holds no
/// locations; otherwise every line must parse.
pub open spec fn spec_parse_cities_text(t: Seq<char>) -> Option<Seq<CityFields>> {
    if t.len() == 0 {
        Some(Seq::<CityFields>::empty())
    } else {
        spec_parse_lines(spec_resource_lines(t))
    }
}

/// Line-by-line reading of `spec_parse_lines`: it succeeds exactly when
/// every line parses, and then pairs results with lines positionally.
pub proof fn lemma_parse_lines_character(lines: Seq<Seq<char>>)
    ensures
        spec_parse_lines(lines) is Some <==> (forall|i: int|
            0 <= i < lines.len() ==> spec_parse_city_line(#[trigger] lines[i]) is Some),
        spec_parse_lines(lines) matches Some(fs) ==> fs.len() == lines.len() && (forall|i: int|
            0 <= i < lines.len() ==> spec_parse_city_line(#[trigger] lines[i]) == Some(fs[i])),
    decreases lines.len(),
{
    if lines.len() == 0 {
    } else {
        lemma_parse_lines_character(lines.drop_first());
        if spec_parse_city_line(lines.first()) is Some && spec_parse_lines(
            lines.drop_first(),
        ) is Some {
            let f = spec_parse_city_line(lines.first()).unwrap();
            let rest = spec_parse_lines(lines.drop_first()).unwrap();
            let fs = seq![f] + rest;
            assert(spec_parse_lines(lines) == Some(fs));
            assert forall|i: int|
                0 <= i < lines.len() implies spec_parse_city_line(#[trigger] lines[i]) == Some(
                fs[i],
            ) by {
                if i > 0 {
                    assert(lines.drop_first()[i - 1] == lines[i]);
                    assert(rest[i - 1] == fs[i]);
                }
            }
        } else if spec_parse_lines(lines) is Some {
            assert(false);
        } else {
            if forall|i: int|
                0 <= i < lines.len() ==> spec_parse_city_line(#[trigger] lines[i]) is Some {
                assert(spec_parse_city_line(lines.first()) is Some);
                assert forall|i: int|
                    0 <= i < lines.drop_first().len() implies spec_parse_city_line(
                    #[trigger] lines.drop_first()[i],
                ) is Some by {
                    assert(lines.drop_first()[i] == lines[i + 1]);
                }
                assert(false);
            }
        }
    }
}

/// Whether parsed field tuples and locations agree field for field.
pub open spec fn cities_match_fields(cs: Seq<CityInfo>, fs: Seq<CityFields>) -> bool {
    &&& cs.len() == fs.len()
    &&& forall|i: int|
        0 <= i < cs.len() ==> {
            &&& (#[trigger] cs[i]).city_name@ == fs[i].name
            &&& cs[i].state@ == fs[i].state
            &&& cs[i].zipcode@ == fs[i].zip
            &&& cs[i].timezone@ == fs[i].tz
        }
}

/// Parses the locations resource text.
pub fn parse_cities_text(text: &str) -> (r: Option<Vec<CityInfo>>)
    ensures
        r is Some <==> spec_parse_cities_text(text@) is Some,
        r matches Some(cs) ==> (spec_parse_cities_text(text@) matches Some(fs)
            && cities_match_fields(cs@, fs)),
{
    if text.unicode_len() == 0 {
        return Some(Vec::new());
    }
    let parts = split_on(text, '\n');
    let mut lines = parts;
    if lines.len() > 1 && lines[lines.len() - 1].as_str().is_empty() {
        let ghost before = lines@;
        lines.pop();
        proof {
            assert(str_views(lines@) =~~= str_views(before).drop_last());
            assert(str_views(lines@) =~~= spec_resource_lines(text@));
        }
    } else {
        proof {
            assert(str_views(lines@) =~~= spec_resource_lines(text@));
        }
    }
    let ghost line_views = spec_resource_lines(text@);
    let mut cities: Vec<CityInfo> = Vec::new();
    let mut i: usize = 0;
    proof {
        lemma_parse_lines_character(line_views);
    }
    while i < lines.len()
        invariant
            0 <= i <= lines@.len(),
            text@.len() > 0,
            line_views == spec_resource_lines(text@),
            str_views(lines@) == line_views,
            cities@.len() == i,
            forall|j: int|
                0 <= j < i ==> spec_parse_city_line(#[trigger] line_views[j]) is Some,
            forall|j: int|
                0 <= j < i ==> {
                    let f = spec_parse_city_line(#[trigger] line_views[j]).unwrap();
                    &&& cities@[j].city_name@ == f.name
                    &&& cities@[j].state@ == f.state
                    &&& cities@[j].zipcode@ == f.zip
                    &&& cities@[j].timezone@ == f.tz
                },
        decreases lines@.len() - i,
    {
        let fields = split_on(lines[i].as_str(), ',');
        proof {
            assert(lines@[i as int]@ == line_views[i as int]);
        }
        if fields.len() != 4 {
            proof {
                assert(str_views(fields@).len() == fields@.len());
                assert(spec_split(line_views[i as int], ',').len() != 4);
                assert(spec_parse_city_line(line_views[i as int]) is None);
                lemma_parse_lines_character(line_views);
                assert(spec_parse_lines(line_views) is None);
            }
            return None;
        }
        let city = CityInfo {
            city_name: fields[0].clone(),
            state: fields[1].clone(),
            zipcode: fields[2].clone(),
            timezone: fields[3].clone(),
        };
        proof {
            assert(str_views(fields@)[0] == fields@[0]@);
            assert(str_views(fields@)[1] == fields@[1]@);
            assert(str_views(fields@)[2] == fields@[2]@);
            assert(str_views(fields@)[3] == fields@[3]@);
        }
        cities.push(city);
        i = i + 1;
    }
    proof {
        lemma_parse_lines_character(line_views);
        assert(spec_parse_lines(line_views) is Some);
        let fs = spec_parse_lines(line_views).unwrap();
        assert(fs.len() == line_views.len());
        assert forall|k: int| 0 <= k < cities@.len() implies {
            &&& (#[trigger] cities@[k]).city_name@ == fs[k].name
            &&& cities@[k].state@ == fs[k].state
            &&& cities@[k].zipcode@ == fs[k].zip
            &&& cities@[k].timezone@ == fs[k].tz
        } by {
            assert(spec_parse_city_line(line_views[k]) == Some(fs[k]));
        }
        assert(cities_match_fields(cities@, fs));
    }
    Some(cities)
}

/// The credentials resource text: network id, newline, secret.
pub open spec fn spec_wifi_text(w: WifiCredentials) -> Seq<char> {
    w.ssid@ + seq!['\n'] + w.pass@
}

/// Renders the credentials resource text.
pub fn render_wifi_text(creds: &WifiCredentials) -> (r: String)
    ensures
        r@ == spec_wifi_text(*creds),
{
    proof {
        reveal_strlit("\n");
    }
    let mut r = creds.ssid.clone();
    r.append("\n");
    r.append(creds.pass.as_str());
    proof {
        assert(r@ =~= spec_wifi_text(*creds));
    }
    r
}

/// Parses the credentials resource text: the first line is the network
/// id and the second the secret; later lines are ignored.
pub fn parse_wifi_text(text: &str) -> (r: Option<WifiCredentials>)
    ensures
        r is Some <==> spec_split(text@, '\n').len() >= 2,
        r matches Some(w) ==> w.ssid@ == spec_split(text@, '\n')[0] && w.pass@ == spec_split(
            text@,
            '\n',
        )[1],
{
    let parts = split_on(text, '\n');
    if parts.len() < 2 {
        return None;
    }
    let w = WifiCredentials { ssid: parts[0].clone(), pass: parts[1].clone() };
    proof {
        assert(str_views(parts@)[0] == parts@[0]@);
        assert(str_views(parts@)[1] == parts@[1]@);
    }
    Some(w)
}

/// Parses the key resource text: its first line.
pub fn parse_key_text(text: &str) -> (r: Option<String>)
    ensures
        r is Some <==> text@.len() > 0,
        r matches Some(k) ==> k@ == spec_split(text@, '\n')[0],
{
    if text.unicode_len() == 0 {
        return None;
    }
    let parts = split_on(text, '\n');
    proof {
        crate::textcodec::lemma_split_parts(text@, '\n');
        assert(str_views(parts@).len() == parts@.len());
        assert(str_views(parts@)[0] == parts@[0]@);
    }
    Some(parts[0].clone())
}

/// Writing the locations resource for clean locations and reading it
/// back yields field-for-field equal values.
pub proof fn lemma_cities_round_trip(cs: Seq<CityInfo>)
    requires
        cities_clean(cs),
    ensures
        spec_parse_cities_text(spec_cities_text(cs)) matches Some(fs) && cities_match_fields(
            cs,
            fs,
        ),
{
    if cs.len() == 0 {
        assert(spec_cities_text(cs).len() == 0);
        assert(cities_match_fields(cs, Seq::<CityFields>::empty()));
    } else {
        let lines = city_lines(cs);
        let whole = lines.push(Seq::<char>::empty());
        let text = spec_cities_text(cs);
        lemma_cities_text_as_join(cs);
        assert forall|i: int| 0 <= i < whole.len() implies !(#[trigger] whole[i]).contains(
            '\n',
        ) by {
            if i < lines.len() {
                let c = cs[i];
                assert(whole[i] == spec_city_line(c));
                lemma_city_line_as_join(c);
                assert(city_clean(c));
                lemma_join_free_of(city_fields(c), ',', '\n');
            } else {
                assert(whole[i].len() == 0);
            }
        }
        lemma_split_of_join(whole, '\n');
        assert(spec_split(text, '\n') == whole);
        assert(whole.len() > 1);
        assert(whole.last().len() == 0);
        assert(spec_resource_lines(text) =~~= lines);
        assert(text.len() > 0) by {
            assert(text == spec_cities_text(cs.drop_last()) + spec_city_line(cs.last())
                + seq!['\n']);
        }
        assert forall|i: int| 0 <= i < lines.len() implies spec_parse_city_line(
            #[trigger] lines[i],
        ) == Some(
            CityFields {
                name: cs[i].city_name@,
                state: cs[i].state@,
                zip: cs[i].zipcode@,
                tz: cs[i].timezone@,
            },
        ) by {
            let c = cs[i];
            assert(lines[i] == spec_city_line(c));
            lemma_city_line_as_join(c);
            assert(city_clean(c));
            lemma_split_of_join(city_fields(c), ',');
            assert(spec_split(lines[i], ',') == city_fields(c));
        }
        lemma_parse_lines_character(lines);
        assert(spec_parse_lines(lines) is Some);
        let fs = spec_parse_lines(lines).unwrap();
        assert(fs.len() == lines.len());
        assert(lines.len() == cs.len());
        assert forall|i: int| 0 <= i < cs.len() implies {
            &&& (#[trigger] cs[i]).city_name@ == fs[i].name
            &&& cs[i].state@ == fs[i].state
            &&& cs[i].zipcode@ == fs[i].zip
            &&& cs[i].timezone@ == fs[i].tz
        } by {
            assert(spec_parse_city_line(lines[i]) == Some(fs[i]));
            assert(spec_parse_city_line(lines[i]) == Some(
                CityFields {
                    name: cs[i].city_name@,
                    state: cs[i].state@,
                    zip: cs[i].zipcode@,
                    tz: cs[i].timezone@,
                },
            ));
        }
        assert(cities_match_fields(cs, fs));
    }
}

/// Writing the credentials resource and reading it back restores both
/// fields, for fields free of line breaks.
pub proof fn lemma_wifi_round_trip(w: WifiCredentials)
    requires
        !w.ssid@.contains('\n'),
        !w.pass@.contains('\n'),
    ensures
        spec_split(spec_wifi_text(w), '\n').len() == 2,
        spec_split(spec_wifi_text(w), '\n')[0] == w.ssid@,
        spec_split(spec_wifi_text(w), '\n')[1] == w.pass@,
{
    let parts = seq![w.ssid@, w.pass@];
    assert(parts.drop_first() =~~= seq![w.pass@]);
    assert(spec_join(seq![w.pass@], '\n') == w.pass@);
    assert(spec_join(parts, '\n') =~= spec_wifi_text(w));
    assert(no_sep(parts, '\n'));
    lemma_split_of_join(parts, '\n');
}

} // verus!

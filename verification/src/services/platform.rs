//! Whitelisted users of the data platform and the SQL command texts that the
//! platform service sends for them.

use crate::text::{decimal, i8_to_decimal, join, join_strings, signed_decimal, u64_to_decimal};
use vstd::prelude::*;

verus! {

/// A row of the `whitelist_user` table; absent fields are left out of
/// inserts and updates.
pub struct WhitelistUserData {
    pub openid: Option<String>,
    pub name: Option<String>,
    pub added_time: Option<u64>,
    pub expiration_date: Option<u64>,
    pub added_by: Option<String>,
    pub status: Option<i8>,
}

/// `seq![x]` when present, empty otherwise.
pub open spec fn present<T>(present: bool, x: T) -> Seq<T> {
    if present { seq![x] } else { seq![] }
}

/// Text of an optional string field (meaningful when present).
pub open spec fn str_text(o: Option<String>) -> Seq<char> {
    match o {
        Some(v) => v@,
        None => seq![],
    }
}

/// Decimal text of an optional unsigned field (meaningful when present).
pub open spec fn u64_text(o: Option<u64>) -> Seq<char> {
    match o {
        Some(v) => decimal(v as nat),
        None => seq![],
    }
}

/// Decimal text of an optional signed field (meaningful when present).
pub open spec fn i8_text(o: Option<i8>) -> Seq<char> {
    match o {
        Some(v) => signed_decimal(v as int),
        None => seq![],
    }
}

/// Names of the present columns, in declaration order.
pub open spec fn insert_field_names(d: WhitelistUserData) -> Seq<Seq<char>> {
    present(d.openid is Some, "openid"@) + present(d.name is Some, "name"@) + present(
        d.added_time is Some,
        "added_time"@,
    ) + present(d.expiration_date is Some, "expiration_date"@) + present(
        d.added_by is Some,
        "added_by"@,
    ) + present(d.status is Some, "status"@)
}

/// Texts of the present columns' values, in the same order, unquoted.
pub open spec fn insert_field_values(d: WhitelistUserData) -> Seq<Seq<char>> {
    present(d.openid is Some, str_text(d.openid)) + present(d.name is Some, str_text(d.name))
        + present(d.added_time is Some, u64_text(d.added_time)) + present(
        d.expiration_date is Some,
        u64_text(d.expiration_date),
    ) + present(d.added_by is Some, str_text(d.added_by)) + present(
        d.status is Some,
        i8_text(d.status),
    )
}

/// `(` + parts joined by `, ` + `)`.
pub open spec fn paren_list(parts: Seq<Seq<char>>) -> Seq<char> {
    "("@ + join(parts, ", "@) + ")"@
}

/// `{prefix}{value}'`, where the prefix is `{column} = '`.
pub open spec fn assignment(prefix: Seq<char>, value: Seq<char>) -> Seq<char> {
    prefix + value + "'"@
}

/// Assignments of the present columns other than `openid`, in declaration order.
pub open spec fn update_assignments(d: WhitelistUserData) -> Seq<Seq<char>> {
    present(d.name is Some, assignment("name = '"@, str_text(d.name))) + present(
        d.added_time is Some,
        assignment("added_time = '"@, u64_text(d.added_time)),
    ) + present(
        d.expiration_date is Some,
        assignment("expiration_date = '"@, u64_text(d.expiration_date)),
    ) + present(d.added_by is Some, assignment("added_by = '"@, str_text(d.added_by))) + present(
        d.status is Some,
        assignment("status = '"@, i8_text(d.status)),
    )
}

/// Appends a string, tracking the deep view.
pub(crate) fn push_text(v: &mut Vec<String>, s: String)
    ensures
        final(v).deep_view() == old(v).deep_view().push(s@),
{
    let ghost before = v.deep_view();
    v.push(s);
    assert(v.deep_view() =~= before.push(s@));
}

/// Builds `{prefix}{value}'`.
fn quoted_assignment(prefix: &str, value: &str) -> (s: String)
    ensures
        s@ == prefix@ + value@ + "'"@,
{
    let mut s = String::from_str(prefix);
    s.append(value);
    s.append("'");
    s
}

impl WhitelistUserData {
    /// A row that holds only the given openid.
    pub fn new_with_openid(openid: String) -> (d: Self)
        ensures
            d.openid == Some(openid),
            d.name is None,
            d.added_time is None,
            d.expiration_date is None,
            d.added_by is None,
            d.status is None,
    {
        WhitelistUserData {
            openid: Some(openid),
            name: None,
            added_time: None,
            expiration_date: None,
            added_by: None,
            status: None,
        }
    }

    /// The column list and the value list of an insert, each in parentheses
    /// and separated by `, `; only present fields take part, values unquoted.
    pub fn gen_insert_fields_and_values(&self) -> (r: (String, String))
        ensures
            r.0@ == paren_list(insert_field_names(*self)),
            r.1@ == paren_list(insert_field_values(*self)),
    {
        let mut fields: Vec<String> = Vec::new();
        let mut values: Vec<String> = Vec::new();
        let ghost d = *self;
        if let Some(openid) = &self.openid {
            push_text(&mut fields, String::from_str("openid"));
            push_text(&mut values, openid.clone());
        }
        assert(fields.deep_view() =~= present(d.openid is Some, "openid"@));
        assert(values.deep_view() =~= present(d.openid is Some, str_text(d.openid)));
        let ghost f1 = fields.deep_view();
        let ghost v1 = values.deep_view();
        if let Some(name) = &self.name {
            push_text(&mut fields, String::from_str("name"));
            push_text(&mut values, name.clone());
        }
        assert(fields.deep_view() =~= f1 + present(d.name is Some, "name"@));
        assert(values.deep_view() =~= v1 + present(d.name is Some, str_text(d.name)));
        let ghost f2 = fields.deep_view();
        let ghost v2 = values.deep_view();
        if let Some(added_time) = &self.added_time {
            push_text(&mut fields, String::from_str("added_time"));
            push_text(&mut values, u64_to_decimal(*added_time));
        }
        assert(fields.deep_view() =~= f2 + present(d.added_time is Some, "added_time"@));
        assert(values.deep_view() =~= v2 + present(
            d.added_time is Some,
            u64_text(d.added_time),
        ));
        let ghost f3 = fields.deep_view();
        let ghost v3 = values.deep_view();
        if let Some(expiration_date) = &self.expiration_date {
            push_text(&mut fields, String::from_str("expiration_date"));
            push_text(&mut values, u64_to_decimal(*expiration_date));
        }
        assert(fields.deep_view() =~= f3 + present(
            d.expiration_date is Some,
            "expiration_date"@,
        ));
        assert(values.deep_view() =~= v3 + present(
            d.expiration_date is Some,
            u64_text(d.expiration_date),
        ));
        let ghost f4 = fields.deep_view();
        let ghost v4 = values.deep_view();
        if let Some(added_by) = &self.added_by {
            push_text(&mut fields, String::from_str("added_by"));
            push_text(&mut values, added_by.clone());
        }
        assert(fields.deep_view() =~= f4 + present(d.added_by is Some, "added_by"@));
        assert(values.deep_view() =~= v4 + present(d.added_by is Some, str_text(d.added_by)));
        let ghost f5 = fields.deep_view();
        let ghost v5 = values.deep_view();
        if let Some(status) = &self.status {
            push_text(&mut fields, String::from_str("status"));
            push_text(&mut values, i8_to_decimal(*status));
        }
        assert(fields.deep_view() =~= f5 + present(d.status is Some, "status"@));
        assert(values.deep_view() =~= v5 + present(d.status is Some, i8_text(d.status)));
        assert(fields.deep_view() =~= insert_field_names(d));
        assert(values.deep_view() =~= insert_field_values(d));
        let mut fields_str = String::from_str("(");
        fields_str.append(join_strings(&fields, ", ").as_str());
        fields_str.append(")");
        let mut values_str = String::from_str("(");
        values_str.append(join_strings(&values, ", ").as_str());
        values_str.append(")");
        (fields_str, values_str)
    }

    /// The `SET` list of an update: `{column} = '{value}'` for every present
    /// field but `openid`, separated by `, `.
    pub fn gen_update_cmd(&self) -> (cmd: String)
        ensures
            cmd@ == join(update_assignments(*self), ", "@),
    {
        let mut fields: Vec<String> = Vec::new();
        let ghost d = *self;
        if let Some(name) = &self.name {
            push_text(&mut fields, quoted_assignment("name = '", name.as_str()));
        }
        assert(fields.deep_view() =~= present(
            d.name is Some,
            assignment("name = '"@, str_text(d.name)),
        ));
        let ghost f1 = fields.deep_view();
        if let Some(added_time) = &self.added_time {
            push_text(
                &mut fields,
                quoted_assignment("added_time = '", u64_to_decimal(*added_time).as_str()),
            );
        }
        assert(fields.deep_view() =~= f1 + present(
            d.added_time is Some,
            assignment("added_time = '"@, u64_text(d.added_time)),
        ));
        let ghost f2 = fields.deep_view();
        if let Some(expiration_date) = &self.expiration_date {
            push_text(
                &mut fields,
                quoted_assignment(
                    "expiration_date = '",
                    u64_to_decimal(*expiration_date).as_str(),
                ),
            );
        }
        assert(fields.deep_view() =~= f2 + present(
            d.expiration_date is Some,
            assignment("expiration_date = '"@, u64_text(d.expiration_date)),
        ));
        let ghost f3 = fields.deep_view();
        if let Some(added_by) = &self.added_by {
            push_text(&mut fields, quoted_assignment("added_by = '", added_by.as_str()));
        }
        assert(fields.deep_view() =~= f3 + present(
            d.added_by is Some,
            assignment("added_by = '"@, str_text(d.added_by)),
        ));
        let ghost f4 = fields.deep_view();
        if let Some(status) = &self.status {
            push_text(
                &mut fields,
                quoted_assignment("status = '", i8_to_decimal(*status).as_str()),
            );
        }
        assert(fields.deep_view() =~= f4 + present(
            d.status is Some,
            assignment("status = '"@, i8_text(d.status)),
        ));
        assert(fields.deep_view() =~= update_assignments(d));
        join_strings(&fields, ", ")
    }
}

/// The error text of a command that needs an openid when none is given.
pub open spec fn openid_required_text() -> Seq<char> {
    "openid required"@
}

/// The text of a `Result<String, String>` outcome, `Ok` or `Err` alike.
pub open spec fn outcome_is(r: Result<String, String>, ok: bool, text: Seq<char>) -> bool {
    match r {
        Ok(s) => ok && s@ == text,
        Err(e) => !ok && e@ == text,
    }
}

/// The command that deletes the user with the row's openid; an error when
/// the row has no openid.
pub fn delete_whitelist_user_cmd(data: &WhitelistUserData) -> (r: Result<String, String>)
    ensures
        match data.openid {
            Some(openid) => outcome_is(
                r,
                true,
                "DELETE FROM whitelist_user WHERE openid='"@ + openid@ + "';"@,
            ),
            None => outcome_is(r, false, openid_required_text()),
        },
{
    match &data.openid {
        Some(openid) => {
            let mut cmd = String::from_str("DELETE FROM whitelist_user WHERE openid='");
            cmd.append(openid.as_str());
            cmd.append("';");
            Ok(cmd)
        },
        None => Err(String::from_str("openid required")),
    }
}

/// The command that inserts the row's present fields.
pub fn insert_whitelist_user_cmd(data: &WhitelistUserData) -> (cmd: String)
    ensures
        cmd@ == "INSERT INTO whitelist_user "@ + paren_list(insert_field_names(*data))
            + " VALUES "@ + paren_list(insert_field_values(*data)),
{
    let (fields, values) = data.gen_insert_fields_and_values();
    let mut cmd = String::from_str("INSERT INTO whitelist_user ");
    cmd.append(fields.as_str());
    cmd.append(" VALUES ");
    cmd.append(values.as_str());
    cmd
}

/// The command that selects the unexpired users, only the one with the
/// row's openid when it has one.
pub fn query_whitelist_user_cmd(data: &WhitelistUserData) -> (cmd: String)
    ensures
        cmd@ == match data.openid {
            Some(openid) => "SELECT * FROM whitelist_user WHERE openid='"@ + openid@
                + "' AND expiration_date > UNIX_TIMESTAMP(NOW());"@,
            None => "SELECT * FROM whitelist_user WHERE expiration_date > UNIX_TIMESTAMP(NOW());"@,
        },
{
    match &data.openid {
        Some(openid) => {
            let mut cmd = String::from_str("SELECT * FROM whitelist_user WHERE openid='");
            cmd.append(openid.as_str());
            cmd.append("' AND expiration_date > UNIX_TIMESTAMP(NOW());");
            cmd
        },
        None => String::from_str(
            "SELECT * FROM whitelist_user WHERE expiration_date > UNIX_TIMESTAMP(NOW());",
        ),
    }
}

/// The command that updates the row's present fields of the user with its
/// openid; an error when the row has no openid.
pub fn update_whitelist_user_cmd(data: &WhitelistUserData) -> (r: Result<String, String>)
    ensures
        match data.openid {
            Some(openid) => outcome_is(
                r,
                true,
                "UPDATE whitelist_user SET "@ + join(update_assignments(*data), ", "@)
                    + " WHERE openid = '"@ + openid@ + "'"@,
            ),
            None => outcome_is(r, false, openid_required_text()),
        },
{
    let set_list = data.gen_update_cmd();
    match &data.openid {
        Some(openid) => {
            let mut cmd = String::from_str("UPDATE whitelist_user SET ");
            cmd.append(set_list.as_str());
            cmd.append(" WHERE openid = '");
            cmd.append(openid.as_str());
            cmd.append("'");
            Ok(cmd)
        },
        None => Err(String::from_str("openid required")),
    }
}

/// The text of the row's field with the given column name (`status` for
/// any other name).
pub open spec fn field_text(d: WhitelistUserData, column: Seq<char>) -> Seq<char> {
    if column == "openid"@ {
        str_text(d.openid)
    } else if column == "name"@ {
        str_text(d.name)
    } else if column == "added_time"@ {
        u64_text(d.added_time)
    } else if column == "expiration_date"@ {
        u64_text(d.expiration_date)
    } else if column == "added_by"@ {
        str_text(d.added_by)
    } else {
        i8_text(d.status)
    }
}

/// Every pair holds a column name and the text of that field.
pub open spec fn pairs_hold_fields(d: WhitelistUserData, s: Seq<(Seq<char>, Seq<char>)>) -> bool {
    forall|i: int| 0 <= i < s.len() ==> #[trigger] s[i].1 == field_text(d, s[i].0)
}

/// The property holds of a concatenation when it holds of both parts.
proof fn lemma_pairs_hold_fields_concat(
    d: WhitelistUserData,
    a: Seq<(Seq<char>, Seq<char>)>,
    b: Seq<(Seq<char>, Seq<char>)>,
)
    requires
        pairs_hold_fields(d, a),
        pairs_hold_fields(d, b),
    ensures
        pairs_hold_fields(d, a + b),
{
    assert forall|i: int| 0 <= i < (a + b).len() implies #[trigger] (a + b)[i].1 == field_text(
        d,
        (a + b)[i].0,
    ) by {
        if i < a.len() {
            assert((a + b)[i] == a[i]);
        } else {
            assert((a + b)[i] == b[i - a.len()]);
        }
    }
}

/// Law: an insert lists each present field once, and the i-th value is the
/// text of the field the i-th column names, whatever the other fields hold.
pub proof fn law_insert_values_follow_columns(d: WhitelistUserData)
    ensures
        insert_field_names(d).len() == ones(d.openid is Some) + ones(d.name is Some) + ones(
            d.added_time is Some,
        ) + ones(d.expiration_date is Some) + ones(d.added_by is Some) + ones(d.status is Some),
        insert_field_values(d).len() == insert_field_names(d).len(),
        forall|i: int|
            0 <= i < insert_field_names(d).len() ==> #[trigger] insert_field_values(d)[i]
                == field_text(d, insert_field_names(d)[i]),
{
    reveal_strlit("openid");
    reveal_strlit("name");
    reveal_strlit("added_time");
    reveal_strlit("expiration_date");
    reveal_strlit("added_by");
    reveal_strlit("status");
    assert("openid"@.len() == 6 && "name"@.len() == 4 && "added_time"@.len() == 10
        && "expiration_date"@.len() == 15 && "added_by"@.len() == 8 && "status"@.len() == 6);
    assert("status"@[0] != "openid"@[0]);
    assert(field_text(d, "name"@) == str_text(d.name));
    assert(field_text(d, "added_time"@) == u64_text(d.added_time));
    assert(field_text(d, "expiration_date"@) == u64_text(d.expiration_date));
    assert(field_text(d, "added_by"@) == str_text(d.added_by));
    assert(field_text(d, "status"@) == i8_text(d.status));
    law_insert_columns_match_values(d);
    let c0 = present(d.openid is Some, ("openid"@, str_text(d.openid)));
    let c1 = present(d.name is Some, ("name"@, str_text(d.name)));
    let c2 = present(d.added_time is Some, ("added_time"@, u64_text(d.added_time)));
    let c3 = present(
        d.expiration_date is Some,
        ("expiration_date"@, u64_text(d.expiration_date)),
    );
    let c4 = present(d.added_by is Some, ("added_by"@, str_text(d.added_by)));
    let c5 = present(d.status is Some, ("status"@, i8_text(d.status)));
    assert(pairs_hold_fields(d, c0));
    assert(pairs_hold_fields(d, c1));
    assert(pairs_hold_fields(d, c2));
    assert(pairs_hold_fields(d, c3));
    assert(pairs_hold_fields(d, c4));
    assert(pairs_hold_fields(d, c5));
    lemma_pairs_hold_fields_concat(d, c0, c1);
    lemma_pairs_hold_fields_concat(d, c0 + c1, c2);
    lemma_pairs_hold_fields_concat(d, c0 + c1 + c2, c3);
    lemma_pairs_hold_fields_concat(d, c0 + c1 + c2 + c3, c4);
    lemma_pairs_hold_fields_concat(d, c0 + c1 + c2 + c3 + c4, c5);
    let pairs = insert_columns(d);
    assert(pairs == c0 + c1 + c2 + c3 + c4 + c5);
    assert forall|i: int| 0 <= i < insert_field_names(d).len() implies #[trigger] insert_field_values(
        d,
    )[i] == field_text(d, insert_field_names(d)[i]) by {
        assert(insert_field_names(d)[i] == pairs[i].0);
        assert(insert_field_values(d)[i] == pairs[i].1);
    }
}

/// 1 for a present field, 0 for an absent one.
pub open spec fn ones(present: bool) -> int {
    if present { 1 } else { 0 }
}

/// An element placed between two sequences is contained in the whole.
pub proof fn lemma_contains_between(a: Seq<Seq<char>>, x: Seq<char>, c: Seq<Seq<char>>)
    ensures
        (a + seq![x] + c).contains(x),
{
    assert((a + seq![x] + c)[a.len() as int] == x);
}

/// Law: an update assigns every present field but `openid`, one assignment
/// per present field, each `{column} = '{value}'` with the value's text,
/// whatever the other fields hold.
pub proof fn law_update_assigns_every_present_field(d: WhitelistUserData)
    ensures
        update_assignments(d).len() == ones(d.name is Some) + ones(d.added_time is Some) + ones(
            d.expiration_date is Some,
        ) + ones(d.added_by is Some) + ones(d.status is Some),
        d.name matches Some(v) ==> update_assignments(d).contains("name = '"@ + v@ + "'"@),
        d.added_time matches Some(v) ==> update_assignments(d).contains(
            "added_time = '"@ + decimal(v as nat) + "'"@,
        ),
        d.expiration_date matches Some(v) ==> update_assignments(d).contains(
            "expiration_date = '"@ + decimal(v as nat) + "'"@,
        ),
        d.added_by matches Some(v) ==> update_assignments(d).contains(
            "added_by = '"@ + v@ + "'"@,
        ),
        d.status matches Some(v) ==> update_assignments(d).contains(
            "status = '"@ + signed_decimal(v as int) + "'"@,
        ),
{
    let p0 = present(d.name is Some, assignment("name = '"@, str_text(d.name)));
    let p1 = present(d.added_time is Some, assignment("added_time = '"@, u64_text(d.added_time)));
    let p2 = present(
        d.expiration_date is Some,
        assignment("expiration_date = '"@, u64_text(d.expiration_date)),
    );
    let p3 = present(d.added_by is Some, assignment("added_by = '"@, str_text(d.added_by)));
    let p4 = present(d.status is Some, assignment("status = '"@, i8_text(d.status)));
    let u = update_assignments(d);
    assert(u == p0 + p1 + p2 + p3 + p4);
    if let Some(v) = d.name {
        assert(u =~= Seq::<Seq<char>>::empty() + seq![p0[0]] + (p1 + p2 + p3 + p4));
        lemma_contains_between(Seq::empty(), p0[0], p1 + p2 + p3 + p4);
    }
    if let Some(v) = d.added_time {
        assert(u =~= p0 + seq![p1[0]] + (p2 + p3 + p4));
        lemma_contains_between(p0, p1[0], p2 + p3 + p4);
    }
    if let Some(v) = d.expiration_date {
        assert(u =~= (p0 + p1) + seq![p2[0]] + (p3 + p4));
        lemma_contains_between(p0 + p1, p2[0], p3 + p4);
    }
    if let Some(v) = d.added_by {
        assert(u =~= (p0 + p1 + p2) + seq![p3[0]] + p4);
        lemma_contains_between(p0 + p1 + p2, p3[0], p4);
    }
    if let Some(v) = d.status {
        assert(u =~= (p0 + p1 + p2 + p3) + seq![p4[0]] + Seq::<Seq<char>>::empty());
        lemma_contains_between(p0 + p1 + p2 + p3, p4[0], Seq::empty());
    }
}

/// The present columns of a row with the text of their values, in
/// declaration order.
pub open spec fn insert_columns(d: WhitelistUserData) -> Seq<(Seq<char>, Seq<char>)> {
    present(d.openid is Some, ("openid"@, str_text(d.openid))) + present(
        d.name is Some,
        ("name"@, str_text(d.name)),
    ) + present(d.added_time is Some, ("added_time"@, u64_text(d.added_time))) + present(
        d.expiration_date is Some,
        ("expiration_date"@, u64_text(d.expiration_date)),
    ) + present(d.added_by is Some, ("added_by"@, str_text(d.added_by))) + present(
        d.status is Some,
        ("status"@, i8_text(d.status)),
    )
}

/// First components of a sequence of pairs.
pub open spec fn firsts(s: Seq<(Seq<char>, Seq<char>)>) -> Seq<Seq<char>> {
    s.map_values(|p: (Seq<char>, Seq<char>)| p.0)
}

/// Second components of a sequence of pairs.
pub open spec fn seconds(s: Seq<(Seq<char>, Seq<char>)>) -> Seq<Seq<char>> {
    s.map_values(|p: (Seq<char>, Seq<char>)| p.1)
}

/// Components of concatenated pairs are the concatenated components.
pub proof fn lemma_components_concat(x: Seq<(Seq<char>, Seq<char>)>, y: Seq<(Seq<char>, Seq<char>)>)
    ensures
        firsts(x + y) == firsts(x) + firsts(y),
        seconds(x + y) == seconds(x) + seconds(y),
{
    assert(firsts(x + y) =~= firsts(x) + firsts(y));
    assert(seconds(x + y) =~= seconds(x) + seconds(y));
}

/// Components of an optional pair are the optional components.
pub proof fn lemma_components_present(b: bool, n: Seq<char>, v: Seq<char>)
    ensures
        firsts(present(b, (n, v))) == present(b, n),
        seconds(present(b, (n, v))) == present(b, v),
{
    assert(firsts(present(b, (n, v))) =~= present(b, n));
    assert(seconds(present(b, (n, v))) =~= present(b, v));
}

/// Law: the column list and the value list of an insert come from the same
/// present columns, position by position: the i-th value is the value of the
/// i-th column.
pub proof fn law_insert_columns_match_values(d: WhitelistUserData)
    ensures
        insert_field_names(d) == firsts(insert_columns(d)),
        insert_field_values(d) == seconds(insert_columns(d)),
{
    let c0 = present(d.openid is Some, ("openid"@, str_text(d.openid)));
    let c1 = present(d.name is Some, ("name"@, str_text(d.name)));
    let c2 = present(d.added_time is Some, ("added_time"@, u64_text(d.added_time)));
    let c3 = present(
        d.expiration_date is Some,
        ("expiration_date"@, u64_text(d.expiration_date)),
    );
    let c4 = present(d.added_by is Some, ("added_by"@, str_text(d.added_by)));
    let c5 = present(d.status is Some, ("status"@, i8_text(d.status)));
    lemma_components_present(d.openid is Some, "openid"@, str_text(d.openid));
    lemma_components_present(d.name is Some, "name"@, str_text(d.name));
    lemma_components_present(d.added_time is Some, "added_time"@, u64_text(d.added_time));
    lemma_components_present(
        d.expiration_date is Some,
        "expiration_date"@,
        u64_text(d.expiration_date),
    );
    lemma_components_present(d.added_by is Some, "added_by"@, str_text(d.added_by));
    lemma_components_present(d.status is Some, "status"@, i8_text(d.status));
    lemma_components_concat(c0, c1);
    lemma_components_concat(c0 + c1, c2);
    lemma_components_concat(c0 + c1 + c2, c3);
    lemma_components_concat(c0 + c1 + c2 + c3, c4);
    lemma_components_concat(c0 + c1 + c2 + c3 + c4, c5);
}

} // verus!

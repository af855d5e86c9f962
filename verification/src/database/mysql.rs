//! SQL command texts of the direct MySQL client: values are quoted and
//! lists separated by a bare comma.

use crate::services::platform::{
    assignment, firsts, i8_text, lemma_components_concat, lemma_components_present,
    lemma_contains_between, ones, present, push_text, seconds, str_text, u64_text,
};
use crate::text::{decimal, i8_to_decimal, join, join_strings, signed_decimal, u64_to_decimal};
use vstd::prelude::*;

verus! {

/// A row of the `whitelist_user` table; absent fields are left out.
pub struct WhitelistUserData {
    pub openid: Option<String>,
    pub name: Option<String>,
    pub added_time: Option<u64>,
    pub expiration_date: Option<u64>,
    pub added_by: Option<String>,
    pub status: Option<i8>,
}

/// `'{value}'`.
pub open spec fn quoted(value: Seq<char>) -> Seq<char> {
    "'"@ + value + "'"@
}

/// Columns of an insert: `openid`, then the other present fields in
/// declaration order.
pub open spec fn insert_columns(d: WhitelistUserData) -> Seq<Seq<char>> {
    seq!["openid"@] + present(d.name is Some, "name"@) + present(
        d.added_time is Some,
        "added_time"@,
    ) + present(d.expiration_date is Some, "expiration_date"@) + present(
        d.added_by is Some,
        "added_by"@,
    ) + present(d.status is Some, "status"@)
}

/// Quoted values of an insert, in the order of the columns.
pub open spec fn insert_values(d: WhitelistUserData) -> Seq<Seq<char>> {
    seq![quoted(str_text(d.openid))] + present(d.name is Some, quoted(str_text(d.name))) + present(
        d.added_time is Some,
        quoted(u64_text(d.added_time)),
    ) + present(d.expiration_date is Some, quoted(u64_text(d.expiration_date))) + present(
        d.added_by is Some,
        quoted(str_text(d.added_by)),
    ) + present(d.status is Some, quoted(i8_text(d.status)))
}

/// Assignments of an update: the present fields but `openid`.
pub open spec fn update_pairs(d: WhitelistUserData) -> Seq<Seq<char>> {
    present(d.name is Some, assignment("name = '"@, str_text(d.name))) + present(
        d.added_time is Some,
        assignment("added_time = '"@, u64_text(d.added_time)),
    ) + present(
        d.expiration_date is Some,
        assignment("expiration_date = '"@, u64_text(d.expiration_date)),
    ) + present(d.added_by is Some, assignment("added_by = '"@, str_text(d.added_by))) + present(
        d.status is Some,
        assignment("status = '"@, i8_text(d.status)),
    )
}

/// `'{value}'` as a string.
fn quote(value: &str) -> (s: String)
    ensures
        s@ == quoted(value@),
{
    let mut s = String::from_str("'");
    s.append(value);
    s.append("'");
    s
}

/// `{prefix}{value}'` as a string.
fn assign(prefix: &str, value: &str) -> (s: String)
    ensures
        s@ == assignment(prefix@, value@),
{
    let mut s = String::from_str(prefix);
    s.append(value);
    s.append("'");
    s
}

/// The command that deletes the user with the row's openid; an error when
/// the row has no openid.
pub fn delete_whitelist_user_cmd(data: &WhitelistUserData) -> (r: Result<String, String>)
    ensures
        match data.openid {
            Some(openid) => r matches Ok(c) && c@ == "DELETE FROM whitelist_user WHERE openid='"@
                + openid@ + "';"@,
            None => r matches Err(e) && e@ == "openid required"@,
        },
{
    match &data.openid {
        Some(openid) => {
            let mut cmd = String::from_str("DELETE FROM whitelist_user WHERE openid='");
            cmd.append(openid.as_str());
            cmd.append("';");
            Ok(cmd)
        },
        None => Err(String::from_str("openid required")),
    }
}

/// The command that inserts the row, its values quoted; an error when the
/// row has no openid.
pub fn insert_whitelist_user_cmd(data: &WhitelistUserData) -> (r: Result<String, String>)
    ensures
        match data.openid {
            Some(_) => r matches Ok(c) && c@ == "INSERT INTO whitelist_user ("@ + join(
                insert_columns(*data),
                ","@,
            ) + ") VALUES ("@ + join(insert_values(*data), ","@) + ");"@,
            None => r matches Err(e) && e@ == "openid required"@,
        },
{
    let openid = match &data.openid {
        Some(openid) => openid,
        None => {
            return Err(String::from_str("openid required"));
        },
    };
    let ghost d = *data;
    let mut fields: Vec<String> = Vec::new();
    let mut values: Vec<String> = Vec::new();
    push_text(&mut fields, String::from_str("openid"));
    push_text(&mut values, quote(openid.as_str()));
    assert(fields.deep_view() =~= seq!["openid"@]);
    assert(values.deep_view() =~= seq![quoted(str_text(d.openid))]);
    let ghost f1 = fields.deep_view();
    let ghost v1 = values.deep_view();
    if let Some(name) = &data.name {
        push_text(&mut fields, String::from_str("name"));
        push_text(&mut values, quote(name.as_str()));
    }
    assert(fields.deep_view() =~= f1 + present(d.name is Some, "name"@));
    assert(values.deep_view() =~= v1 + present(d.name is Some, quoted(str_text(d.name))));
    let ghost f2 = fields.deep_view();
    let ghost v2 = values.deep_view();
    if let Some(added_time) = &data.added_time {
        push_text(&mut fields, String::from_str("added_time"));
        push_text(&mut values, quote(u64_to_decimal(*added_time).as_str()));
    }
    assert(fields.deep_view() =~= f2 + present(d.added_time is Some, "added_time"@));
    assert(values.deep_view() =~= v2 + present(
        d.added_time is Some,
        quoted(u64_text(d.added_time)),
    ));
    let ghost f3 = fields.deep_view();
    let ghost v3 = values.deep_view();
    if let Some(expiration_date) = &data.expiration_date {
        push_text(&mut fields, String::from_str("expiration_date"));
        push_text(&mut values, quote(u64_to_decimal(*expiration_date).as_str()));
    }
    assert(fields.deep_view() =~= f3 + present(d.expiration_date is Some, "expiration_date"@));
    assert(values.deep_view() =~= v3 + present(
        d.expiration_date is Some,
        quoted(u64_text(d.expiration_date)),
    ));
    let ghost f4 = fields.deep_view();
    let ghost v4 = values.deep_view();
    if let Some(added_by) = &data.added_by {
        push_text(&mut fields, String::from_str("added_by"));
        push_text(&mut values, quote(added_by.as_str()));
    }
    assert(fields.deep_view() =~= f4 + present(d.added_by is Some, "added_by"@));
    assert(values.deep_view() =~= v4 + present(
        d.added_by is Some,
        quoted(str_text(d.added_by)),
    ));
    let ghost f5 = fields.deep_view();
    let ghost v5 = values.deep_view();
    if let Some(status) = &data.status {
        push_text(&mut fields, String::from_str("status"));
        push_text(&mut values, quote(i8_to_decimal(*status).as_str()));
    }
    assert(fields.deep_view() =~= f5 + present(d.status is Some, "status"@));
    assert(values.deep_view() =~= v5 + present(d.status is Some, quoted(i8_text(d.status))));
    assert(fields.deep_view() =~= insert_columns(d));
    assert(values.deep_view() =~= insert_values(d));
    let mut cmd = String::from_str("INSERT INTO whitelist_user (");
    cmd.append(join_strings(&fields, ",").as_str());
    cmd.append(") VALUES (");
    cmd.append(join_strings(&values, ",").as_str());
    cmd.append(");");
    Ok(cmd)
}

/// The command that updates the row's present fields of the user with its
/// openid; an error when the row has no openid.
pub fn update_whitelist_user_cmd(data: &WhitelistUserData) -> (r: Result<String, String>)
    ensures
        match data.openid {
            Some(openid) => r matches Ok(c) && c@ == "UPDATE whitelist_user SET "@ + join(
                update_pairs(*data),
                ","@,
            ) + " WHERE openid = '"@ + openid@ + "'"@,
            None => r matches Err(e) && e@ == "openid required"@,
        },
{
    let ghost d = *data;
    let mut kv: Vec<String> = Vec::new();
    if let Some(name) = &data.name {
        push_text(&mut kv, assign("name = '", name.as_str()));
    }
    assert(kv.deep_view() =~= present(d.name is Some, assignment("name = '"@, str_text(d.name))));
    let ghost k1 = kv.deep_view();
    if let Some(added_time) = &data.added_time {
        push_text(&mut kv, assign("added_time = '", u64_to_decimal(*added_time).as_str()));
    }
    assert(kv.deep_view() =~= k1 + present(
        d.added_time is Some,
        assignment("added_time = '"@, u64_text(d.added_time)),
    ));
    let ghost k2 = kv.deep_view();
    if let Some(expiration_date) = &data.expiration_date {
        push_text(
            &mut kv,
            assign("expiration_date = '", u64_to_decimal(*expiration_date).as_str()),
        );
    }
    assert(kv.deep_view() =~= k2 + present(
        d.expiration_date is Some,
        assignment("expiration_date = '"@, u64_text(d.expiration_date)),
    ));
    let ghost k3 = kv.deep_view();
    if let Some(added_by) = &data.added_by {
        push_text(&mut kv, assign("added_by = '", added_by.as_str()));
    }
    assert(kv.deep_view() =~= k3 + present(
        d.added_by is Some,
        assignment("added_by = '"@, str_text(d.added_by)),
    ));
    let ghost k4 = kv.deep_view();
    if let Some(status) = &data.status {
        push_text(&mut kv, assign("status = '", i8_to_decimal(*status).as_str()));
    }
    assert(kv.deep_view() =~= k4 + present(
        d.status is Some,
        assignment("status = '"@, i8_text(d.status)),
    ));
    assert(kv.deep_view() =~= update_pairs(d));
    let set_list = join_strings(&kv, ",");
    match &data.openid {
        Some(openid) => {
            let mut cmd = String::from_str("UPDATE whitelist_user SET ");
            cmd.append(set_list.as_str());
            cmd.append(" WHERE openid = '");
            cmd.append(openid.as_str());
            cmd.append("'");
            Ok(cmd)
        },
        None => Err(String::from_str("openid required")),
    }
}

/// The command that selects the user with the row's openid, or every user
/// when it has none.
pub fn query_whitelist_user_cmd(data: &WhitelistUserData) -> (cmd: String)
    ensures
        cmd@ == match data.openid {
            Some(openid) => "SELECT * FROM whitelist_user WHERE openid='"@ + openid@ + "';"@,
            None => "SELECT * FROM whitelist_user;"@,
        },
{
    match &data.openid {
        Some(openid) => {
            let mut cmd = String::from_str("SELECT * FROM whitelist_user WHERE openid='");
            cmd.append(openid.as_str());
            cmd.append("';");
            cmd
        },
        None => String::from_str("SELECT * FROM whitelist_user;"),
    }
}

/// The text of the row's field with the given column name (`status` for
/// any other name).
pub open spec fn field_text(d: WhitelistUserData, column: Seq<char>) -> Seq<char> {
    if column == "openid"@ {
        str_text(d.openid)
    } else if column == "name"@ {
        str_text(d.name)
    } else if column == "added_time"@ {
        u64_text(d.added_time)
    } else if column == "expiration_date"@ {
        u64_text(d.expiration_date)
    } else if column == "added_by"@ {
        str_text(d.added_by)
    } else {
        i8_text(d.status)
    }
}

/// Every pair holds a column name and the quoted text of that field.
pub open spec fn pairs_quote_fields(d: WhitelistUserData, s: Seq<(Seq<char>, Seq<char>)>) -> bool {
    forall|i: int| 0 <= i < s.len() ==> #[trigger] s[i].1 == quoted(field_text(d, s[i].0))
}

/// The property holds of a concatenation when it holds of both parts.
proof fn lemma_pairs_quote_fields_concat(
    d: WhitelistUserData,
    a: Seq<(Seq<char>, Seq<char>)>,
    b: Seq<(Seq<char>, Seq<char>)>,
)
    requires
        pairs_quote_fields(d, a),
        pairs_quote_fields(d, b),
    ensures
        pairs_quote_fields(d, a + b),
{
    assert forall|i: int| 0 <= i < (a + b).len() implies #[trigger] (a + b)[i].1 == quoted(
        field_text(d, (a + b)[i].0),
    ) by {
        if i < a.len() {
            assert((a + b)[i] == a[i]);
        } else {
            assert((a + b)[i] == b[i - a.len()]);
        }
    }
}

/// Law: the insert names `openid` first, then each other present field once,
/// and the i-th value is the quoted text of the field the i-th column names,
/// whatever the other fields hold.
pub proof fn law_insert_values_follow_columns(d: WhitelistUserData)
    ensures
        insert_columns(d)[0] == "openid"@,
        insert_columns(d).len() == 1 + ones(d.name is Some) + ones(d.added_time is Some) + ones(
            d.expiration_date is Some,
        ) + ones(d.added_by is Some) + ones(d.status is Some),
        insert_values(d).len() == insert_columns(d).len(),
        forall|i: int|
            0 <= i < insert_columns(d).len() ==> #[trigger] insert_values(d)[i] == quoted(
                field_text(d, insert_columns(d)[i]),
            ),
{
    reveal_strlit("openid");
    reveal_strlit("name");
    reveal_strlit("added_time");
    reveal_strlit("expiration_date");
    reveal_strlit("added_by");
    reveal_strlit("status");
    let q0 = seq![("openid"@, quoted(str_text(d.openid)))];
    let q1 = present(d.name is Some, ("name"@, quoted(str_text(d.name))));
    let q2 = present(d.added_time is Some, ("added_time"@, quoted(u64_text(d.added_time))));
    let q3 = present(
        d.expiration_date is Some,
        ("expiration_date"@, quoted(u64_text(d.expiration_date))),
    );
    let q4 = present(d.added_by is Some, ("added_by"@, quoted(str_text(d.added_by))));
    let q5 = present(d.status is Some, ("status"@, quoted(i8_text(d.status))));
    assert(q0 == present(true, ("openid"@, quoted(str_text(d.openid)))));
    lemma_components_present(true, "openid"@, quoted(str_text(d.openid)));
    lemma_components_present(d.name is Some, "name"@, quoted(str_text(d.name)));
    lemma_components_present(d.added_time is Some, "added_time"@, quoted(u64_text(d.added_time)));
    lemma_components_present(
        d.expiration_date is Some,
        "expiration_date"@,
        quoted(u64_text(d.expiration_date)),
    );
    lemma_components_present(d.added_by is Some, "added_by"@, quoted(str_text(d.added_by)));
    lemma_components_present(d.status is Some, "status"@, quoted(i8_text(d.status)));
    lemma_components_concat(q0, q1);
    lemma_components_concat(q0 + q1, q2);
    lemma_components_concat(q0 + q1 + q2, q3);
    lemma_components_concat(q0 + q1 + q2 + q3, q4);
    lemma_components_concat(q0 + q1 + q2 + q3 + q4, q5);
    let pairs = q0 + q1 + q2 + q3 + q4 + q5;
    assert(insert_columns(d) == firsts(pairs));
    assert(insert_values(d) == seconds(pairs));
    assert("openid"@.len() == 6 && "name"@.len() == 4 && "added_time"@.len() == 10
        && "expiration_date"@.len() == 15 && "added_by"@.len() == 8 && "status"@.len() == 6);
    assert("status"@[0] != "openid"@[0]);
    assert(field_text(d, "name"@) == str_text(d.name));
    assert(field_text(d, "added_time"@) == u64_text(d.added_time));
    assert(field_text(d, "expiration_date"@) == u64_text(d.expiration_date));
    assert(field_text(d, "added_by"@) == str_text(d.added_by));
    assert(field_text(d, "status"@) == i8_text(d.status));
    assert(pairs_quote_fields(d, q0));
    assert(pairs_quote_fields(d, q1));
    assert(pairs_quote_fields(d, q2));
    assert(pairs_quote_fields(d, q3));
    assert(pairs_quote_fields(d, q4));
    assert(pairs_quote_fields(d, q5));
    lemma_pairs_quote_fields_concat(d, q0, q1);
    lemma_pairs_quote_fields_concat(d, q0 + q1, q2);
    lemma_pairs_quote_fields_concat(d, q0 + q1 + q2, q3);
    lemma_pairs_quote_fields_concat(d, q0 + q1 + q2 + q3, q4);
    lemma_pairs_quote_fields_concat(d, q0 + q1 + q2 + q3 + q4, q5);
    assert forall|i: int| 0 <= i < insert_columns(d).len() implies #[trigger] insert_values(d)[i]
        == quoted(field_text(d, insert_columns(d)[i])) by {
        assert(insert_columns(d)[i] == pairs[i].0);
        assert(insert_values(d)[i] == pairs[i].1);
    }
}

/// Law: an update assigns every present field but `openid`, one assignment
/// per present field, each `{column} = '{value}'` with the value's text,
/// whatever the other fields hold.
pub proof fn law_update_assigns_every_present_field(d: WhitelistUserData)
    ensures
        update_pairs(d).len() == ones(d.name is Some) + ones(d.added_time is Some) + ones(
            d.expiration_date is Some,
        ) + ones(d.added_by is Some) + ones(d.status is Some),
        d.name matches Some(v) ==> update_pairs(d).contains("name = '"@ + v@ + "'"@),
        d.added_time matches Some(v) ==> update_pairs(d).contains(
            "added_time = '"@ + decimal(v as nat) + "'"@,
        ),
        d.expiration_date matches Some(v) ==> update_pairs(d).contains(
            "expiration_date = '"@ + decimal(v as nat) + "'"@,
        ),
        d.added_by matches Some(v) ==> update_pairs(d).contains("added_by = '"@ + v@ + "'"@),
        d.status matches Some(v) ==> update_pairs(d).contains(
            "status = '"@ + signed_decimal(v as int) + "'"@,
        ),
{
    let p0 = present(d.name is Some, assignment("name = '"@, str_text(d.name)));
    let p1 = present(d.added_time is Some, assignment("added_time = '"@, u64_text(d.added_time)));
    let p2 = present(
        d.expiration_date is Some,
        assignment("expiration_date = '"@, u64_text(d.expiration_date)),
    );
    let p3 = present(d.added_by is Some, assignment("added_by = '"@, str_text(d.added_by)));
    let p4 = present(d.status is Some, assignment("status = '"@, i8_text(d.status)));
    let u = update_pairs(d);
    assert(u == p0 + p1 + p2 + p3 + p4);
    if let Some(v) = d.name {
        assert(u =~= Seq::<Seq<char>>::empty() + seq![p0[0]] + (p1 + p2 + p3 + p4));
        lemma_contains_between(Seq::empty(), p0[0], p1 + p2 + p3 + p4);
    }
    if let Some(v) = d.added_time {
        assert(u =~= p0 + seq![p1[0]] + (p2 + p3 + p4));
        lemma_contains_between(p0, p1[0], p2 + p3 + p4);
    }
    if let Some(v) = d.expiration_date {
        assert(u =~= (p0 + p1) + seq![p2[0]] + (p3 + p4));
        lemma_contains_between(p0 + p1, p2[0], p3 + p4);
    }
    if let Some(v) = d.added_by {
        assert(u =~= (p0 + p1 + p2) + seq![p3[0]] + p4);
        lemma_contains_between(p0 + p1 + p2, p3[0], p4);
    }
    if let Some(v) = d.status {
        assert(u =~= (p0 + p1 + p2 + p3) + seq![p4[0]] + Seq::<Seq<char>>::empty());
        lemma_contains_between(p0 + p1 + p2 + p3, p4[0], Seq::empty());
    }
}

} // verus!

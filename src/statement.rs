use vstd::prelude::*;
use crate::catalog::{
    label_text, DeclarationKind, KeyBinding, Label, NodePattern, SchemaDeclaration, Stage,
    Upsert,
};
use crate::text::{decimal, decimal_string};

verus! {

pub open spec fn binding_text(k: KeyBinding) -> Seq<char> {
    k.property@ + ": "@ + k.value@
}

/// The entries of a key map, separated by commas.
pub open spec fn bindings_text(keys: Seq<KeyBinding>) -> Seq<char>
    decreases keys.len(),
{
    if keys.len() == 0 {
        Seq::empty()
    } else if keys.len() == 1 {
        binding_text(keys[0])
    } else {
        bindings_text(keys.drop_last()) + ", "@ + binding_text(keys.last())
    }
}

/// `(var:Label {key: value, ...})`
pub open spec fn node_text(p: NodePattern) -> Seq<char> {
    "("@ + p.var@ + ":"@ + label_text(p.label) + " {"@ + bindings_text(p.keys@) + "})"@
}

/// The pattern that a stage merges.
pub open spec fn upsert_text(u: Upsert) -> Seq<char> {
    match u {
        Upsert::Node(p) => node_text(p),
        Upsert::Link { from, var, rel, keys, to } =>
            "("@ + from@ + ")-["@ + var@ + ":"@ + rel@ + " {"@ + bindings_text(keys@) + "}]->("@
                + to@ + ")"@,
    }
}

/// One `MATCH` line for each lookup, in order.
pub open spec fn lookups_text(ps: Seq<NodePattern>) -> Seq<char>
    decreases ps.len(),
{
    if ps.len() == 0 {
        Seq::empty()
    } else {
        lookups_text(ps.drop_last()) + "MATCH "@ + node_text(ps.last()) + "\n"@
    }
}

/// What a stage does with one row: its lookups, its merge, its assignments.
pub open spec fn row_text(s: Stage) -> Seq<char> {
    lookups_text(s.lookups@) + "MERGE "@ + upsert_text(s.upsert) + "\n"@ + s.assignments@
}

/// Where the rows come from.
pub open spec fn source_text(s: Stage) -> Seq<char> {
    "LOAD CSV WITH HEADERS FROM '"@ + s.source@ + "' AS row\n"@ + match s.delimiter {
        Some(d) => "FIELDTERMINATOR '"@ + d@ + "'\n"@,
        None => Seq::empty(),
    }
}

/// The full bulk-upsert statement of a stage. A chunked stage wraps the row
/// work in a sub-query committed every `n` rows.
pub open spec fn stage_text(s: Stage) -> Seq<char> {
    source_text(s) + match s.chunk_rows {
        None => row_text(s),
        Some(n) => "CALL (row) {\n"@ + row_text(s) + "\n} IN TRANSACTIONS OF "@ + decimal(n as nat)
            + " ROWS"@,
    }
}

/// The idempotent statement that declares a constraint or index.
pub open spec fn declaration_text(d: SchemaDeclaration) -> Seq<char> {
    match d.kind {
        DeclarationKind::Constraint => "CREATE CONSTRAINT IF NOT EXISTS FOR "@ + d.target@
            + " REQUIRE "@ + d.property@ + " IS UNIQUE"@,
        DeclarationKind::Index => "CREATE INDEX IF NOT EXISTS FOR "@ + d.target@ + " ON "@
            + d.property@,
    }
}

/// `n:A OR n:B OR ...` over the given labels.
pub open spec fn label_disjunction(ls: Seq<Label>) -> Seq<char>
    decreases ls.len(),
{
    if ls.len() == 0 {
        Seq::empty()
    } else if ls.len() == 1 {
        "n:"@ + label_text(ls[0])
    } else {
        label_disjunction(ls.drop_last()) + " OR n:"@ + label_text(ls.last())
    }
}

/// The bounded existence probe: one row back if any node carries one of the
/// labels, none otherwise.
pub open spec fn probe_text(ls: Seq<Label>) -> Seq<char> {
    "MATCH (n) WHERE "@ + label_disjunction(ls) + " LIMIT 1 RETURN 1"@
}

fn append_bindings(s: &mut String, keys: &Vec<KeyBinding>)
    ensures
        final(s)@ == old(s)@ + bindings_text(keys@),
{
    let ghost start = s@;
    let n = keys.len();
    let mut i: usize = 0;
    while i < n
        invariant
            n == keys@.len(),
            i <= n,
            s@ == start + bindings_text(keys@.subrange(0, i as int)),
        decreases n - i,
    {
        let ghost pre = keys@.subrange(0, i as int);
        let ghost next = keys@.subrange(0, i as int + 1);
        assert(next.drop_last() =~= pre);
        if i > 0 {
            s.append(", ");
        }
        s.append(keys[i].property.as_str());
        s.append(": ");
        s.append(keys[i].value.as_str());
        i = i + 1;
        assert(s@ =~= start + bindings_text(next));
    }
    assert(keys@.subrange(0, n as int) =~= keys@);
}

fn append_node(s: &mut String, p: &NodePattern)
    ensures
        final(s)@ == old(s)@ + node_text(*p),
{
    let ghost start = s@;
    s.append("(");
    s.append(p.var.as_str());
    s.append(":");
    s.append(p.label.name());
    s.append(" {");
    append_bindings(s, &p.keys);
    s.append("})");
    assert(s@ =~= start + node_text(*p));
}

fn append_upsert(s: &mut String, u: &Upsert)
    ensures
        final(s)@ == old(s)@ + upsert_text(*u),
{
    let ghost start = s@;
    match u {
        Upsert::Node(p) => {
            append_node(s, p);
        },
        Upsert::Link { from, var, rel, keys, to } => {
            s.append("(");
            s.append(from.as_str());
            s.append(")-[");
            s.append(var.as_str());
            s.append(":");
            s.append(rel.as_str());
            s.append(" {");
            append_bindings(s, keys);
            s.append("}]->(");
            s.append(to.as_str());
            s.append(")");
            assert(s@ =~= start + upsert_text(*u));
        },
    }
}

fn append_lookups(s: &mut String, ps: &Vec<NodePattern>)
    ensures
        final(s)@ == old(s)@ + lookups_text(ps@),
{
    let ghost start = s@;
    let n = ps.len();
    let mut i: usize = 0;
    while i < n
        invariant
            n == ps@.len(),
            i <= n,
            s@ == start + lookups_text(ps@.subrange(0, i as int)),
        decreases n - i,
    {
        let ghost pre = ps@.subrange(0, i as int);
        let ghost next = ps@.subrange(0, i as int + 1);
        assert(next.drop_last() =~= pre);
        s.append("MATCH ");
        append_node(s, &ps[i]);
        s.append("\n");
        i = i + 1;
        assert(s@ =~= start + lookups_text(next));
    }
    assert(ps@.subrange(0, n as int) =~= ps@);
}

fn append_rows(s: &mut String, stage: &Stage)
    ensures
        final(s)@ == old(s)@ + row_text(*stage),
{
    let ghost start = s@;
    append_lookups(s, &stage.lookups);
    s.append("MERGE ");
    append_upsert(s, &stage.upsert);
    s.append("\n");
    s.append(stage.assignments.as_str());
    assert(s@ =~= start + row_text(*stage));
}

/// The bulk-upsert statement that a stage issues.
pub fn stage_statement(stage: &Stage) -> (r: String)
    ensures
        r@ == stage_text(*stage),
{
    let mut s = String::from_str("LOAD CSV WITH HEADERS FROM '");
    s.append(stage.source.as_str());
    s.append("' AS row\n");
    match &stage.delimiter {
        Some(d) => {
            s.append("FIELDTERMINATOR '");
            s.append(d.as_str());
            s.append("'\n");
        },
        None => {},
    }
    let ghost head = s@;
    assert(head =~= source_text(*stage));
    match stage.chunk_rows {
        None => {
            append_rows(&mut s, stage);
        },
        Some(n) => {
            s.append("CALL (row) {\n");
            append_rows(&mut s, stage);
            s.append("\n} IN TRANSACTIONS OF ");
            let digits = decimal_string(n as u64);
            s.append(digits.as_str());
            s.append(" ROWS");
        },
    }
    assert(s@ =~= stage_text(*stage));
    s
}

/// The idempotent "create if not exists" statement of a declaration.
pub fn declaration_statement(d: &SchemaDeclaration) -> (r: String)
    ensures
        r@ == declaration_text(*d),
{
    let mut s;
    match d.kind {
        DeclarationKind::Constraint => {
            s = String::from_str("CREATE CONSTRAINT IF NOT EXISTS FOR ");
            s.append(d.target.as_str());
            s.append(" REQUIRE ");
            s.append(d.property.as_str());
            s.append(" IS UNIQUE");
        },
        DeclarationKind::Index => {
            s = String::from_str("CREATE INDEX IF NOT EXISTS FOR ");
            s.append(d.target.as_str());
            s.append(" ON ");
            s.append(d.property.as_str());
        },
    }
    assert(s@ =~= declaration_text(*d));
    s
}

/// The presence probe over a dataset's labels.
pub fn probe_statement(labels: &Vec<Label>) -> (r: String)
    ensures
        r@ == probe_text(labels@),
{
    let mut s = String::from_str("MATCH (n) WHERE ");
    let ghost start = s@;
    let n = labels.len();
    let mut i: usize = 0;
    while i < n
        invariant
            n == labels@.len(),
            i <= n,
            s@ == start + label_disjunction(labels@.subrange(0, i as int)),
        decreases n - i,
    {
        let ghost pre = labels@.subrange(0, i as int);
        let ghost next = labels@.subrange(0, i as int + 1);
        assert(next.drop_last() =~= pre);
        if i > 0 {
            s.append(" OR n:");
        } else {
            s.append("n:");
        }
        s.append(labels[i].name());
        i = i + 1;
        assert(s@ =~= start + label_disjunction(next));
    }
    assert(labels@.subrange(0, n as int) =~= labels@);
    s.append(" LIMIT 1 RETURN 1");
    assert(s@ =~= probe_text(labels@));
    s
}


/// Every schema declaration is issued in its "if not exists" form, so that
/// declaring it again is no error and adds nothing.
pub proof fn lemma_declarations_if_not_exists(d: SchemaDeclaration)
    ensures
        d.kind == DeclarationKind::Constraint ==> declaration_text(d).subrange(0, 32)
            == "CREATE CONSTRAINT IF NOT EXISTS "@,
        d.kind == DeclarationKind::Index ==> declaration_text(d).subrange(0, 27)
            == "CREATE INDEX IF NOT EXISTS "@,
{
    reveal_strlit("CREATE CONSTRAINT IF NOT EXISTS FOR ");
    reveal_strlit("CREATE CONSTRAINT IF NOT EXISTS ");
    reveal_strlit("CREATE INDEX IF NOT EXISTS FOR ");
    reveal_strlit("CREATE INDEX IF NOT EXISTS ");
    let t = declaration_text(d);
    if d.kind == DeclarationKind::Constraint {
        assert(t.subrange(0, 32) =~= "CREATE CONSTRAINT IF NOT EXISTS "@);
    } else {
        assert(t.subrange(0, 27) =~= "CREATE INDEX IF NOT EXISTS "@);
    }
}

} // verus!

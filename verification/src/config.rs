use vstd::prelude::*;

use crate::text::{decimal, push_decimal};

verus! {

/// How to reach the database.
pub struct DatabaseConfig {
    pub url: String,
    pub max_connections: u32,
    pub min_connections: u32,
    pub connect_timeout_secs: u64,
    pub acquire_timeout_secs: u64,
}

impl DatabaseConfig {
    /// The debug text of the configuration, in which the URL (which may hold a password) is redacted.
    pub open spec fn spec_debug_text(&self) -> Seq<char> {
        "DatabaseConfig { url: \"<redacted>\", max_connections: "@ + decimal(self.max_connections as nat)
            + ", min_connections: "@ + decimal(self.min_connections as nat)
            + ", connect_timeout_secs: "@ + decimal(self.connect_timeout_secs as nat)
            + ", acquire_timeout_secs: "@ + decimal(self.acquire_timeout_secs as nat) + " }"@
    }

    /// Writes the configuration for a log, with the URL redacted.
    pub fn debug_text(&self) -> (text: String)
        ensures
            text@ == self.spec_debug_text(),
    {
        let mut text = String::from_str("DatabaseConfig { url: \"<redacted>\", max_connections: ");
        push_decimal(&mut text, self.max_connections as u64);
        text.append(", min_connections: ");
        push_decimal(&mut text, self.min_connections as u64);
        text.append(", connect_timeout_secs: ");
        push_decimal(&mut text, self.connect_timeout_secs);
        text.append(", acquire_timeout_secs: ");
        push_decimal(&mut text, self.acquire_timeout_secs);
        text.append(" }");
        text
    }
}

/// The text that `Formatter::debug_struct` has written for a struct named `name` once it has
/// written the given fields, in order, each as its name, `: ` and its debug text, separated by `, `.
pub open spec fn debug_struct_prefix(name: Seq<char>, fields: Seq<(Seq<char>, Seq<char>)>) -> Seq<char>
    decreases fields.len(),
{
    if fields.len() == 0 {
        name + seq![' ', '{', ' ']
    } else {
        debug_struct_prefix(name, fields.drop_last())
            + (if fields.len() == 1 { Seq::<char>::empty() } else { seq![',', ' '] })
            + fields.last().0 + seq![':', ' '] + fields.last().1
    }
}

/// The text that `Formatter::debug_struct` writes for a struct named `name` with at least one
/// field, whose fields, in order, have the given names and debug texts.
pub open spec fn debug_struct_text(name: Seq<char>, fields: Seq<(Seq<char>, Seq<char>)>) -> Seq<char> {
    debug_struct_prefix(name, fields) + seq![' ', '}']
}

proof fn append_label(x: Seq<char>, label: Seq<char>, a: Seq<char>, b: Seq<char>, c: Seq<char>)
    requires
        label == a + b + c,
    ensures
        x + label == x + a + b + c,
{
    assert(x + label =~= x + a + b + c);
}

/// The debug text is that of a `DatabaseConfig` whose URL reads `"<redacted>"` and whose
/// other fields each show their own value under their own name, in declaration order.
pub proof fn debug_text_shows_each_field(c: DatabaseConfig)
    ensures
        c.spec_debug_text() == debug_struct_text(
            "DatabaseConfig"@,
            seq![
                ("url"@, "\"<redacted>\""@),
                ("max_connections"@, decimal(c.max_connections as nat)),
                ("min_connections"@, decimal(c.min_connections as nat)),
                ("connect_timeout_secs"@, decimal(c.connect_timeout_secs as nat)),
                ("acquire_timeout_secs"@, decimal(c.acquire_timeout_secs as nat)),
            ],
        ),
{
    let colon = seq![':', ' '];
    let comma = seq![',', ' '];
    let name = "DatabaseConfig"@;
    let d1 = decimal(c.max_connections as nat);
    let d2 = decimal(c.min_connections as nat);
    let d3 = decimal(c.connect_timeout_secs as nat);
    let d4 = decimal(c.acquire_timeout_secs as nat);
    debug_text_labels();
    let fields = seq![
        ("url"@, "\"<redacted>\""@),
        ("max_connections"@, d1),
        ("min_connections"@, d2),
        ("connect_timeout_secs"@, d3),
        ("acquire_timeout_secs"@, d4),
    ];
    let f4 = fields.drop_last();
    let f3 = f4.drop_last();
    let f2 = f3.drop_last();
    let f1 = f2.drop_last();
    let f0 = f1.drop_last();
    assert(f0 =~= Seq::<(Seq<char>, Seq<char>)>::empty());
    assert(f1 =~= seq![fields[0]]);
    assert(f2 =~= seq![fields[0], fields[1]]);
    assert(f3 =~= seq![fields[0], fields[1], fields[2]]);
    assert(f4 =~= seq![fields[0], fields[1], fields[2], fields[3]]);
    let p0 = name + seq![' ', '{', ' '];
    assert(debug_struct_prefix(name, f0) == p0);
    assert(p0 + Seq::<char>::empty() =~= p0);
    let p1 = p0 + "url"@ + colon + "\"<redacted>\""@;
    assert(debug_struct_prefix(name, f1) == p1);
    let p2 = p1 + comma + "max_connections"@ + colon + d1;
    assert(debug_struct_prefix(name, f2) == p2);
    let p3 = p2 + comma + "min_connections"@ + colon + d2;
    assert(debug_struct_prefix(name, f3) == p3);
    let p4 = p3 + comma + "connect_timeout_secs"@ + colon + d3;
    assert(debug_struct_prefix(name, f4) == p4);
    let p5 = p4 + comma + "acquire_timeout_secs"@ + colon + d4;
    assert(debug_struct_prefix(name, fields) == p5);
    append_label(p2, ", min_connections: "@, comma, "min_connections"@, colon);
    append_label(p3, ", connect_timeout_secs: "@, comma, "connect_timeout_secs"@, colon);
    append_label(p4, ", acquire_timeout_secs: "@, comma, "acquire_timeout_secs"@, colon);
}

proof fn debug_text_labels()
    ensures
        "DatabaseConfig { url: \"<redacted>\", max_connections: "@ == "DatabaseConfig"@ + seq![' ', '{', ' ']
            + "url"@ + seq![':', ' '] + "\"<redacted>\""@ + seq![',', ' '] + "max_connections"@ + seq![':', ' '],
        ", min_connections: "@ == seq![',', ' '] + "min_connections"@ + seq![':', ' '],
        ", connect_timeout_secs: "@ == seq![',', ' '] + "connect_timeout_secs"@ + seq![':', ' '],
        ", acquire_timeout_secs: "@ == seq![',', ' '] + "acquire_timeout_secs"@ + seq![':', ' '],
        " }"@ == seq![' ', '}'],
{
    first_debug_label();
    reveal_strlit(", min_connections: ");
    reveal_strlit("min_connections");
    assert(", min_connections: "@ =~= seq![',', ' '] + "min_connections"@ + seq![':', ' ']);
    reveal_strlit(", connect_timeout_secs: ");
    reveal_strlit("connect_timeout_secs");
    assert(", connect_timeout_secs: "@ =~= seq![',', ' '] + "connect_timeout_secs"@ + seq![':', ' ']);
    reveal_strlit(", acquire_timeout_secs: ");
    reveal_strlit("acquire_timeout_secs");
    assert(", acquire_timeout_secs: "@ =~= seq![',', ' '] + "acquire_timeout_secs"@ + seq![':', ' ']);
    reveal_strlit(" }");
    assert(" }"@ =~= seq![' ', '}']);
}

proof fn first_debug_label()
    ensures
        "DatabaseConfig { url: \"<redacted>\", max_connections: "@ == "DatabaseConfig"@ + seq![' ', '{', ' ']
            + "url"@ + seq![':', ' '] + "\"<redacted>\""@ + seq![',', ' '] + "max_connections"@ + seq![':', ' '],
{
    reveal_strlit("DatabaseConfig { url: \"<redacted>\", max_connections: ");
    reveal_strlit("DatabaseConfig");
    reveal_strlit("url");
    reveal_strlit("\"<redacted>\"");
    reveal_strlit("max_connections");
    assert("DatabaseConfig { url: \"<redacted>\", max_connections: "@ =~= "DatabaseConfig"@ + seq![' ', '{', ' ']
        + "url"@ + seq![':', ' '] + "\"<redacted>\""@ + seq![',', ' '] + "max_connections"@ + seq![':', ' ']);
}

/// The debug text never shows the URL: two configurations that differ only in their URL
/// read the same.
pub proof fn debug_text_hides_url(a: DatabaseConfig, b: DatabaseConfig)
    requires
        a.max_connections == b.max_connections,
        a.min_connections == b.min_connections,
        a.connect_timeout_secs == b.connect_timeout_secs,
        a.acquire_timeout_secs == b.acquire_timeout_secs,
    ensures
        a.spec_debug_text() == b.spec_debug_text(),
{
}

} // verus!

use crate::condition::RoleConditions;
use crate::decimal::{decimal, decimal_string, law_decimal_round_trip, parse_i64, parsed_i64};
use crate::text::opt_view;
use vstd::prelude::*;

verus! {

/// A code group as the dashboard picker lists it.
pub struct BatchSummary {
    pub id: i64,
    pub name: String,
}

/// How the dashboard shows a field.
#[derive(Clone, Copy, Debug, PartialEq, Eq, Structural)]
pub enum SchemaFieldKind {
    /// Read-only text.
    Display,
    /// A list of checkboxes.
    MultiSelect,
}

/// A checkbox of a multi-select field.
pub struct SchemaOption {
    pub label: String,
    pub value: String,
}

/// A field of the role-link dashboard.
pub struct SchemaField {
    pub kind: SchemaFieldKind,
    pub key: String,
    pub label: String,
    pub value: Option<String>,
    pub description: Option<String>,
    pub options: Vec<SchemaOption>,
}

/// A section of the role-link dashboard.
pub struct SchemaSection {
    pub title: String,
    pub description: Option<String>,
    pub fields: Vec<SchemaField>,
}

/// The dashboard schema of a role link and its current values.
pub struct ConfigSchema {
    pub version: u32,
    pub name: String,
    pub description: String,
    pub sections: Vec<SchemaSection>,
    pub approved_batch_ids: Vec<String>,
}

/// `f` is a read-only field with this key, label and text.
pub open spec fn is_display_field(f: SchemaField, key: Seq<char>, label: Seq<char>, value: Seq<char>) -> bool {
    &&& f.kind == SchemaFieldKind::Display
    &&& f.key@ == key
    &&& f.label@ == label
    &&& opt_view(f.value) == Some(value)
    &&& f.description is None
    &&& f.options@.len() == 0
}

/// The admin panel of guild `guild_id`.
pub open spec fn admin_url(base_url: Seq<char>, guild_id: Seq<char>) -> Seq<char> {
    base_url + "/admin?guild_id="@ + guild_id
}

/// The member redemption page.
pub open spec fn redeem_url(base_url: Seq<char>) -> Seq<char> {
    base_url + "/verify"@
}

/// A read-only field.
fn display_field(key: &str, label: &str, value: String) -> (f: SchemaField)
    ensures
        is_display_field(f, key@, label@, value@),
{
    SchemaField {
        kind: SchemaFieldKind::Display,
        key: String::from_str(key),
        label: String::from_str(label),
        value: Some(value),
        description: None,
        options: Vec::new(),
    }
}

/// `prefix` followed by `tail`.
fn joined(prefix: &str, tail: &str) -> (r: String)
    ensures
        r@ == prefix@ + tail@,
{
    let mut s = String::from_str(prefix);
    s.append(tail);
    s
}

/// `s` lists the groups `batches` as checkboxes labelled by name, valued by id.
pub open spec fn lists_batches(s: SchemaSection, batches: Seq<BatchSummary>) -> bool {
    &&& s.title@ == "Approved code groups"@
    &&& opt_view(s.description) == Some(
        "Tick the groups whose codes should grant this role. Leave them all unticked and nobody gets the role."@,
    )
    &&& s.fields@.len() == 1
    &&& s.fields@[0].kind == SchemaFieldKind::MultiSelect
    &&& s.fields@[0].key@ == "approved_batch_ids"@
    &&& s.fields@[0].label@ == "Groups that grant this role"@
    &&& s.fields@[0].value is None
    &&& opt_view(s.fields@[0].description) == Some(
        "Need a new group? Use the admin panel link below."@,
    )
    &&& s.fields@[0].options@.len() == batches.len()
    &&& forall|i: int|
        0 <= i < batches.len() ==> (#[trigger] s.fields@[0].options@[i]).label@ == batches[i].name@
            && s.fields@[0].options@[i].value@ == decimal(batches[i].id as int)
}

/// `s` points to the admin panel at `admin`, for a guild without groups.
pub open spec fn invites_first_batch(s: SchemaSection, admin: Seq<char>) -> bool {
    &&& s.title@ == "Approved code groups"@
    &&& opt_view(s.description) == Some(
        "No code groups yet. Create one in the admin panel — it'll appear here as a checkbox. Tick it to make codes from that group grant this role."@,
    )
    &&& s.fields@.len() == 1
    &&& is_display_field(
        s.fields@[0],
        "no_batches"@,
        "Get started"@,
        "Open the admin panel and click \"+ New code group\": "@ + admin,
    )
}

/// The section of the dashboard that picks the groups granting the role.
pub fn batches_section(guild_id: &str, batches: &Vec<BatchSummary>, base_url: &str) -> (s: SchemaSection)
    ensures
        batches@.len() == 0 ==> invites_first_batch(s, admin_url(base_url@, guild_id@)),
        batches@.len() > 0 ==> lists_batches(s, batches@),
{
    if batches.len() == 0 {
        let mut admin = joined(base_url, "/admin?guild_id=");
        admin.append(guild_id);
        let mut fields: Vec<SchemaField> = Vec::new();
        fields.push(
            display_field(
                "no_batches",
                "Get started",
                joined("Open the admin panel and click \"+ New code group\": ", admin.as_str()),
            ),
        );
        return SchemaSection {
            title: String::from_str("Approved code groups"),
            description: Some(
                String::from_str(
                    "No code groups yet. Create one in the admin panel — it'll appear here as a checkbox. Tick it to make codes from that group grant this role.",
                ),
            ),
            fields,
        };
    }
    let mut options: Vec<SchemaOption> = Vec::new();
    let mut i: usize = 0;
    while i < batches.len()
        invariant
            0 <= i <= batches@.len(),
            options@.len() == i,
            forall|j: int|
                0 <= j < i ==> (#[trigger] options@[j]).label@ == batches@[j].name@
                    && options@[j].value@ == decimal(batches@[j].id as int),
        decreases batches@.len() - i,
    {
        options.push(
            SchemaOption { label: batches[i].name.clone(), value: decimal_string(batches[i].id) },
        );
        i = i + 1;
    }
    let mut fields: Vec<SchemaField> = Vec::new();
    fields.push(
        SchemaField {
            kind: SchemaFieldKind::MultiSelect,
            key: String::from_str("approved_batch_ids"),
            label: String::from_str("Groups that grant this role"),
            value: None,
            description: Some(String::from_str("Need a new group? Use the admin panel link below.")),
            options,
        },
    );
    SchemaSection {
        title: String::from_str("Approved code groups"),
        description: Some(
            String::from_str(
                "Tick the groups whose codes should grant this role. Leave them all unticked and nobody gets the role.",
            ),
        ),
        fields,
    }
}

/// The first section: the three steps of getting started.
pub open spec fn is_quick_start(s: SchemaSection, admin: Seq<char>, redeem: Seq<char>) -> bool {
    &&& s.title@ == "Quick start (3 steps)"@
    &&& s.description is None
    &&& s.fields@.len() == 3
    &&& is_display_field(
        s.fields@[0],
        "step_1"@,
        "Step 1 — Create a code group"@,
        "Open the admin panel and click \"+ New code group\". A code group is a bundle of codes that share the same rules (e.g. \"Kickstarter Tier 2\", \"Podcast Episode 47\"). Admin panel: "@
            + admin,
    )
    &&& is_display_field(
        s.fields@[1],
        "step_2"@,
        "Step 2 — Generate codes"@,
        "Inside the group, click \"Generate codes\" to create one or many. You can also paste your own (e.g. PODCODE for a podcast). Each code shows a Copy URL button and a QR download."@,
    )
    &&& is_display_field(
        s.fields@[2],
        "step_3"@,
        "Step 3 — Approve the group below & share"@,
        "Tick the group in the picker below. Then share your redemption page with users: "@
            + redeem
            + " . When they sign in and enter a code from an approved group, they get this role."@,
    )
}

/// The last section: links to the admin panel and the redemption page.
pub open spec fn is_links_section(s: SchemaSection, admin: Seq<char>, redeem: Seq<char>) -> bool {
    &&& s.title@ == "Links"@
    &&& s.description is None
    &&& s.fields@.len() == 2
    &&& is_display_field(
        s.fields@[0],
        "admin_link"@,
        "Admin panel (for you)"@,
        "Manage code groups, generate codes, view stats: "@ + admin,
    )
    &&& is_display_field(
        s.fields@[1],
        "redeem_link"@,
        "Redemption page (for members)"@,
        "Send this link to anyone who has a code: "@ + redeem,
    )
}

/// The dashboard of a role link of guild `guild_id` with the conditions `conditions`,
/// listing the groups `batches`, with the service at `base_url`. The current values
/// are the approved group ids in decimal.
pub fn build_config_schema(
    guild_id: &str,
    conditions: &RoleConditions,
    batches: &Vec<BatchSummary>,
    base_url: &str,
) -> (r: ConfigSchema)
    ensures
        r.version == 1,
        r.name@ == "Referral Code Role"@,
        r.description@
            == "Hand out redemption codes (Kickstarter rewards, podcast shout-outs, event wristbands, QR flyers). Members who redeem a valid code get this role automatically."@,
        r.sections@.len() == 3,
        is_quick_start(r.sections@[0], admin_url(base_url@, guild_id@), redeem_url(base_url@)),
        batches@.len() == 0 ==> invites_first_batch(r.sections@[1], admin_url(base_url@, guild_id@)),
        batches@.len() > 0 ==> lists_batches(r.sections@[1], batches@),
        is_links_section(r.sections@[2], admin_url(base_url@, guild_id@), redeem_url(base_url@)),
        r.approved_batch_ids@.len() == conditions.approved_batch_ids@.len(),
        forall|i: int|
            0 <= i < conditions.approved_batch_ids@.len() ==> (#[trigger] r.approved_batch_ids@[i])@
                == decimal(conditions.approved_batch_ids@[i] as int),
{
    let mut admin = joined(base_url, "/admin?guild_id=");
    admin.append(guild_id);
    let redeem = joined(base_url, "/verify");
    let mut step_3 = joined(
        "Tick the group in the picker below. Then share your redemption page with users: ",
        redeem.as_str(),
    );
    step_3.append(" . When they sign in and enter a code from an approved group, they get this role.");
    let mut quick: Vec<SchemaField> = Vec::new();
    quick.push(
        display_field(
            "step_1",
            "Step 1 — Create a code group",
            joined(
                "Open the admin panel and click \"+ New code group\". A code group is a bundle of codes that share the same rules (e.g. \"Kickstarter Tier 2\", \"Podcast Episode 47\"). Admin panel: ",
                admin.as_str(),
            ),
        ),
    );
    quick.push(
        display_field(
            "step_2",
            "Step 2 — Generate codes",
            String::from_str(
                "Inside the group, click \"Generate codes\" to create one or many. You can also paste your own (e.g. PODCODE for a podcast). Each code shows a Copy URL button and a QR download.",
            ),
        ),
    );
    quick.push(display_field("step_3", "Step 3 — Approve the group below & share", step_3));
    let mut links: Vec<SchemaField> = Vec::new();
    links.push(
        display_field(
            "admin_link",
            "Admin panel (for you)",
            joined("Manage code groups, generate codes, view stats: ", admin.as_str()),
        ),
    );
    links.push(
        display_field(
            "redeem_link",
            "Redemption page (for members)",
            joined("Send this link to anyone who has a code: ", redeem.as_str()),
        ),
    );
    let mut sections: Vec<SchemaSection> = Vec::new();
    sections.push(
        SchemaSection {
            title: String::from_str("Quick start (3 steps)"),
            description: None,
            fields: quick,
        },
    );
    sections.push(batches_section(guild_id, batches, base_url));
    sections.push(SchemaSection { title: String::from_str("Links"), description: None, fields: links });
    let ids = &conditions.approved_batch_ids;
    let mut values: Vec<String> = Vec::new();
    let mut i: usize = 0;
    while i < ids.len()
        invariant
            0 <= i <= ids@.len(),
            values@.len() == i,
            forall|j: int| 0 <= j < i ==> (#[trigger] values@[j])@ == decimal(ids@[j] as int),
        decreases ids@.len() - i,
    {
        values.push(decimal_string(ids[i]));
        i = i + 1;
    }
    ConfigSchema {
        version: 1,
        name: String::from_str("Referral Code Role"),
        description: String::from_str(
            "Hand out redemption codes (Kickstarter rewards, podcast shout-outs, event wristbands, QR flyers). Members who redeem a valid code get this role automatically.",
        ),
        sections,
        approved_batch_ids: values,
    }
}

/// A value of the `approved_batch_ids` array that the dashboard posts back.
pub enum ConfigValue {
    /// A JSON string.
    Text(String),
    /// A JSON number that is an `i64`.
    Integer(i64),
    /// Any other JSON value.
    Other,
}

/// The group id a posted value stands for, if any: a string that reads as an `i64`,
/// or an integer.
pub open spec fn config_id(v: ConfigValue) -> Option<i64> {
    match v {
        ConfigValue::Text(s) => parsed_i64(s@),
        ConfigValue::Integer(n) => Some(n),
        ConfigValue::Other => None,
    }
}

/// The group ids of the posted values, in order, skipping those that stand for none.
pub open spec fn config_ids(vs: Seq<ConfigValue>) -> Seq<i64>
    decreases vs.len(),
{
    if vs.len() == 0 {
        Seq::empty()
    } else {
        match config_id(vs.last()) {
            Some(id) => config_ids(vs.drop_last()).push(id),
            None => config_ids(vs.drop_last()),
        }
    }
}

/// Reads the conditions of a role link from the dashboard's posted values: the array
/// under `approved_batch_ids` (`None` when the key is missing or holds no array).
pub fn parse_config(approved_batch_ids: Option<Vec<ConfigValue>>) -> (r: RoleConditions)
    ensures
        match approved_batch_ids {
            Some(vs) => r.approved_batch_ids@ == config_ids(vs@),
            None => r.approved_batch_ids@.len() == 0,
        },
{
    let mut ids: Vec<i64> = Vec::new();
    match approved_batch_ids {
        None => {},
        Some(vs) => {
            let mut i: usize = 0;
            while i < vs.len()
                invariant
                    0 <= i <= vs@.len(),
                    ids@ == config_ids(vs@.take(i as int)),
                decreases vs@.len() - i,
            {
                assert(vs@.take(i + 1).drop_last() =~= vs@.take(i as int));
                match &vs[i] {
                    ConfigValue::Text(s) => {
                        if let Some(n) = parse_i64(s.as_str()) {
                            ids.push(n);
                        }
                    },
                    ConfigValue::Integer(n) => {
                        ids.push(*n);
                    },
                    ConfigValue::Other => {},
                }
                i = i + 1;
            }
            assert(vs@.take(i as int) =~= vs@);
        },
    }
    RoleConditions { approved_batch_ids: ids }
}

/// `v` is the text that shows `n` in decimal.
pub open spec fn posts_decimal(v: ConfigValue, n: i64) -> bool {
    match v {
        ConfigValue::Text(s) => s@ == decimal(n as int),
        _ => false,
    }
}

/// The dashboard shows the approved group ids in decimal; posting those values back
/// unchanged reads back exactly the same ids in the same order.
pub proof fn law_config_values_read_back(ids: Seq<i64>, posted: Seq<ConfigValue>)
    requires
        posted.len() == ids.len(),
        forall|i: int| 0 <= i < ids.len() ==> posts_decimal(#[trigger] posted[i], ids[i]),
    ensures
        config_ids(posted) == ids,
    decreases ids.len(),
{
    if ids.len() > 0 {
        let k = ids.len() - 1;
        assert(posts_decimal(posted[k], ids[k]));
        law_decimal_round_trip(ids[k]);
        law_config_values_read_back(ids.drop_last(), posted.drop_last());
        assert(ids.drop_last().push(ids.last()) =~= ids);
    } else {
        assert(ids =~= Seq::<i64>::empty());
    }
}

} // verus!

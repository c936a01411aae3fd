use vstd::prelude::*;
use vstd::string::StringExecFns;

verus! {

/// Server settings read from `comet-config.toml` and the environment.
#[derive(Debug)]
pub struct Settings {
    pub bind_addr: [u8; 4],
    pub bind_port: u16,
    pub password: String,
    pub file_name_length: usize,
    pub enforce_file_extensions: bool,
    pub retain_uploaded_file_name: bool,
    pub file_save_path: String,
    pub default_public: bool,
    pub fallback_content_type: String,
    pub file_size_limit: usize,
    pub dashboard: Dashboard,
    pub api_endpoints: ApiEndpoints,
}

/// Dashboard settings.
#[derive(Debug)]
pub struct Dashboard {
    pub enabled: bool,
    pub base_path: String,
}

/// Paths of the API routes.
#[derive(Debug)]
pub struct ApiEndpoints {
    pub get: String,
    pub upload: String,
    pub delete: String,
    pub ping: String,
}

/// A request to change some of the stored settings; absent fields stay as they are.
#[derive(Debug)]
pub struct UpdateSettingsPayload {
    pub allow_public_signups: Option<bool>,
    pub require_2fa: Option<bool>,
    pub maintenance_mode: Option<bool>,
    pub max_upload_size_mb: Option<i64>,
    pub enforce_file_extensions: Option<bool>,
    pub file_name_length: Option<i64>,
}

/// One stored setting to overwrite, with its new value.
#[derive(Debug, Clone, Copy, PartialEq, Eq, Structural)]
pub enum SettingUpdate {
    AllowPublicSignups(bool),
    Require2fa(bool),
    MaintenanceMode(bool),
    /// No limit when `None`.
    MaxUploadSizeMb(Option<i64>),
    EnforceFileExtensions(bool),
    FileNameLength(i64),
}

impl SettingUpdate {
    /// The column the setting is stored in.
    pub open spec fn column_spec(self) -> Seq<char> {
        match self {
            SettingUpdate::AllowPublicSignups(_) => "allow_public_signups"@,
            SettingUpdate::Require2fa(_) => "require_2fa"@,
            SettingUpdate::MaintenanceMode(_) => "maintenance_mode"@,
            SettingUpdate::MaxUploadSizeMb(_) => "max_upload_size_mb"@,
            SettingUpdate::EnforceFileExtensions(_) => "enforce_file_extensions"@,
            SettingUpdate::FileNameLength(_) => "file_name_length"@,
        }
    }

    /// The column the setting is stored in.
    pub fn column(&self) -> (res: &'static str)
        ensures
            res@ == self.column_spec(),
    {
        match self {
            SettingUpdate::AllowPublicSignups(_) => "allow_public_signups",
            SettingUpdate::Require2fa(_) => "require_2fa",
            SettingUpdate::MaintenanceMode(_) => "maintenance_mode",
            SettingUpdate::MaxUploadSizeMb(_) => "max_upload_size_mb",
            SettingUpdate::EnforceFileExtensions(_) => "enforce_file_extensions",
            SettingUpdate::FileNameLength(_) => "file_name_length",
        }
    }
}

/// A one-element sequence for a present value, an empty one otherwise.
pub open spec fn opt_seq(o: Option<SettingUpdate>) -> Seq<SettingUpdate> {
    match o {
        Some(u) => seq![u],
        None => Seq::empty(),
    }
}

/// The updates a payload asks for, in the order of its fields. A size limit of
/// zero or less means no limit.
pub open spec fn updates_of(p: UpdateSettingsPayload) -> Seq<SettingUpdate> {
    opt_seq(
        match p.allow_public_signups {
            Some(v) => Some(SettingUpdate::AllowPublicSignups(v)),
            None => None,
        },
    ) + opt_seq(
        match p.require_2fa {
            Some(v) => Some(SettingUpdate::Require2fa(v)),
            None => None,
        },
    ) + opt_seq(
        match p.maintenance_mode {
            Some(v) => Some(SettingUpdate::MaintenanceMode(v)),
            None => None,
        },
    ) + opt_seq(
        match p.max_upload_size_mb {
            Some(v) => Some(
                SettingUpdate::MaxUploadSizeMb(
                    if v <= 0 {
                        None
                    } else {
                        Some(v)
                    },
                ),
            ),
            None => None,
        },
    ) + opt_seq(
        match p.enforce_file_extensions {
            Some(v) => Some(SettingUpdate::EnforceFileExtensions(v)),
            None => None,
        },
    ) + opt_seq(
        match p.file_name_length {
            Some(v) => Some(SettingUpdate::FileNameLength(v)),
            None => None,
        },
    )
}

proof fn lemma_concat_contains(a: Seq<SettingUpdate>, b: Seq<SettingUpdate>, x: SettingUpdate)
    ensures
        (a + b).contains(x) <==> a.contains(x) || b.contains(x),
{
    if (a + b).contains(x) {
        let i = choose|i: int| 0 <= i < (a + b).len() && (a + b)[i] == x;
        if i < a.len() {
            assert(a[i] == x);
        } else {
            assert(b[i - a.len()] == x);
        }
    }
    if a.contains(x) {
        let i = choose|i: int| 0 <= i < a.len() && a[i] == x;
        assert((a + b)[i] == x);
    }
    if b.contains(x) {
        let i = choose|i: int| 0 <= i < b.len() && b[i] == x;
        assert((a + b)[a.len() + i] == x);
    }
}

proof fn lemma_opt_seq_contains(o: Option<SettingUpdate>, x: SettingUpdate)
    ensures
        opt_seq(o).contains(x) <==> o == Some(x),
{
    if o == Some(x) {
        assert(opt_seq(o)[0] == x);
    }
}

/// A settings update carries each value of the payload unchanged: the payload
/// sets a switch to `b` exactly when the updates set it to `b`, the file name
/// length to `n` exactly when they set it to `n`, and the size limit to a
/// positive `mb` exactly when they set it to `Some(mb)` (zero or less means no
/// limit); a field the payload leaves out is not touched at all.
pub proof fn lemma_updates_carry_payload_values(p: UpdateSettingsPayload)
    ensures
        forall|b: bool|
            #![trigger updates_of(p).contains(SettingUpdate::AllowPublicSignups(b))]
            updates_of(p).contains(SettingUpdate::AllowPublicSignups(b)) <==> p.allow_public_signups
                == Some(b),
        forall|b: bool|
            #![trigger updates_of(p).contains(SettingUpdate::Require2fa(b))]
            updates_of(p).contains(SettingUpdate::Require2fa(b)) <==> p.require_2fa == Some(b),
        forall|b: bool|
            #![trigger updates_of(p).contains(SettingUpdate::MaintenanceMode(b))]
            updates_of(p).contains(SettingUpdate::MaintenanceMode(b)) <==> p.maintenance_mode == Some(
                b,
            ),
        forall|b: bool|
            #![trigger updates_of(p).contains(SettingUpdate::EnforceFileExtensions(b))]
            updates_of(p).contains(SettingUpdate::EnforceFileExtensions(b))
                <==> p.enforce_file_extensions == Some(b),
        forall|n: i64|
            #![trigger updates_of(p).contains(SettingUpdate::FileNameLength(n))]
            updates_of(p).contains(SettingUpdate::FileNameLength(n)) <==> p.file_name_length == Some(
                n,
            ),
        forall|mb: i64|
            #![trigger updates_of(p).contains(SettingUpdate::MaxUploadSizeMb(Some(mb)))]
            updates_of(p).contains(SettingUpdate::MaxUploadSizeMb(Some(mb))) <==> (0 < mb
                && p.max_upload_size_mb == Some(mb)),
        updates_of(p).contains(SettingUpdate::MaxUploadSizeMb(None)) <==> (p.max_upload_size_mb matches Some(
            v,
        ) && v <= 0),
{
    let o1 = match p.allow_public_signups {
        Some(v) => Some(SettingUpdate::AllowPublicSignups(v)),
        None => None,
    };
    let o2 = match p.require_2fa {
        Some(v) => Some(SettingUpdate::Require2fa(v)),
        None => None,
    };
    let o3 = match p.maintenance_mode {
        Some(v) => Some(SettingUpdate::MaintenanceMode(v)),
        None => None,
    };
    let o4 = match p.max_upload_size_mb {
        Some(v) => Some(
            SettingUpdate::MaxUploadSizeMb(
                if v <= 0 {
                    None
                } else {
                    Some(v)
                },
            ),
        ),
        None => None,
    };
    let o5 = match p.enforce_file_extensions {
        Some(v) => Some(SettingUpdate::EnforceFileExtensions(v)),
        None => None,
    };
    let o6 = match p.file_name_length {
        Some(v) => Some(SettingUpdate::FileNameLength(v)),
        None => None,
    };
    let s1 = opt_seq(o1);
    let s2 = opt_seq(o2);
    let s3 = opt_seq(o3);
    let s4 = opt_seq(o4);
    let s5 = opt_seq(o5);
    let s6 = opt_seq(o6);
    assert(updates_of(p) == s1 + s2 + s3 + s4 + s5 + s6);
    assert forall|x: SettingUpdate| #[trigger] updates_of(p).contains(x) <==> (o1 == Some(x) || o2
        == Some(x) || o3 == Some(x) || o4 == Some(x) || o5 == Some(x) || o6 == Some(x)) by {
        lemma_concat_contains(s1, s2, x);
        lemma_concat_contains(s1 + s2, s3, x);
        lemma_concat_contains(s1 + s2 + s3, s4, x);
        lemma_concat_contains(s1 + s2 + s3 + s4, s5, x);
        lemma_concat_contains(s1 + s2 + s3 + s4 + s5, s6, x);
        lemma_opt_seq_contains(o1, x);
        lemma_opt_seq_contains(o2, x);
        lemma_opt_seq_contains(o3, x);
        lemma_opt_seq_contains(o4, x);
        lemma_opt_seq_contains(o5, x);
        lemma_opt_seq_contains(o6, x);
    }
    assert(updates_of(p).contains(SettingUpdate::MaxUploadSizeMb(None)) <==> (o4 == Some(
        SettingUpdate::MaxUploadSizeMb(None),
    )));
}

fn push_opt(v: &mut Vec<SettingUpdate>, o: Option<SettingUpdate>)
    ensures
        final(v)@ == old(v)@ + opt_seq(o),
{
    match o {
        Some(u) => {
            v.push(u);
            assert(old(v)@.push(u) =~= old(v)@ + seq![u]);
        },
        None => {
            assert(old(v)@ =~= old(v)@ + Seq::<SettingUpdate>::empty());
        },
    }
}

/// The stored settings a payload changes, in order.
pub fn settings_updates(p: &UpdateSettingsPayload) -> (res: Vec<SettingUpdate>)
    ensures
        res@ == updates_of(*p),
{
    let mut v: Vec<SettingUpdate> = Vec::new();
    push_opt(
        &mut v,
        match p.allow_public_signups {
            Some(b) => Some(SettingUpdate::AllowPublicSignups(b)),
            None => None,
        },
    );
    push_opt(
        &mut v,
        match p.require_2fa {
            Some(b) => Some(SettingUpdate::Require2fa(b)),
            None => None,
        },
    );
    push_opt(
        &mut v,
        match p.maintenance_mode {
            Some(b) => Some(SettingUpdate::MaintenanceMode(b)),
            None => None,
        },
    );
    push_opt(
        &mut v,
        match p.max_upload_size_mb {
            Some(mb) => Some(
                SettingUpdate::MaxUploadSizeMb(
                    if mb <= 0 {
                        None
                    } else {
                        Some(mb)
                    },
                ),
            ),
            None => None,
        },
    );
    push_opt(
        &mut v,
        match p.enforce_file_extensions {
            Some(b) => Some(SettingUpdate::EnforceFileExtensions(b)),
            None => None,
        },
    );
    push_opt(
        &mut v,
        match p.file_name_length {
            Some(n) => Some(SettingUpdate::FileNameLength(n)),
            None => None,
        },
    );
    assert(v@ =~= updates_of(*p));
    v
}

/// `col = ?` for each update, separated by `, `.
pub open spec fn set_clause(u: Seq<SettingUpdate>) -> Seq<char>
    decreases u.len(),
{
    if u.len() == 0 {
        Seq::empty()
    } else if u.len() == 1 {
        u[0].column_spec() + " = ?"@
    } else {
        set_clause(u.drop_last()) + ", "@ + u.last().column_spec() + " = ?"@
    }
}

/// The statement that stores the updates, with one `?` placeholder per update
/// (bound in the same order); `None` when there is nothing to update.
pub fn settings_update_sql(updates: &Vec<SettingUpdate>) -> (res: Option<String>)
    ensures
        updates@.len() == 0 <==> res is None,
        res matches Some(sql) ==> sql@ == "UPDATE settings SET "@ + set_clause(updates@)
            + " WHERE id = 1"@,
{
    if updates.len() == 0 {
        return None;
    }
    let mut clause = String::new();
    let mut i: usize = 0;
    while i < updates.len()
        invariant
            i <= updates@.len(),
            clause@ == set_clause(updates@.take(i as int)),
        decreases updates.len() - i,
    {
        let ghost t = updates@.take(i + 1);
        assert(t.drop_last() =~= updates@.take(i as int));
        if i > 0 {
            clause.append(", ");
        }
        clause.append(updates[i].column());
        clause.append(" = ?");
        proof {
            if i == 0 {
                assert(clause@ =~= t[0].column_spec() + " = ?"@);
            } else {
                assert(clause@ =~= set_clause(t.drop_last()) + ", "@ + t.last().column_spec()
                    + " = ?"@);
            }
        }
        i += 1;
    }
    assert(updates@.take(updates@.len() as int) =~= updates@);
    let mut sql = String::from_str("UPDATE settings SET ");
    sql.append(clause.as_str());
    sql.append(" WHERE id = 1");
    Some(sql)
}

} // verus!

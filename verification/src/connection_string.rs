//! Derives the wire-format connection string for a profile.
//!
//! A profile with a non-empty raw `connection_string` short-circuits the
//! whole derivation: that string is returned verbatim. Otherwise the string
//! is composed of `Key=Value` segments joined by semicolons, in a fixed
//! order. Field values are spliced in without escaping or quoting; a value
//! containing `;` or `=` corrupts the result. That matches the wire dialect
//! this tool targets and is a documented limitation, not a feature.

use vstd::prelude::*;
use vstd::string::StringExecFns;

use crate::models::SqlConnection;

verus! {

/// An optional field counts as present only when it is `Some` of a
/// non-empty string.
pub open spec fn has_text(o: Option<String>) -> bool {
    o is Some && o->0@.len() > 0
}

/// The textual form of a boolean flag in the connection string.
pub open spec fn bool_text(b: bool) -> Seq<char> {
    if b {
        "true"@
    } else {
        "false"@
    }
}

/// `Server=<host>` or `Server=<host>,<port>` when a non-empty port is set.
pub open spec fn server_segment(c: SqlConnection) -> Seq<char> {
    if has_text(c.port) {
        "Server="@ + c.server@ + ","@ + c.port->0@
    } else {
        "Server="@ + c.server@
    }
}

/// Zero or one `Database=<name>` segments.
pub open spec fn database_segments(c: SqlConnection) -> Seq<Seq<char>> {
    if has_text(c.database_name) {
        seq!["Database="@ + c.database_name->0@]
    } else {
        Seq::<Seq<char>>::empty()
    }
}

/// The authentication segments: integrated security alone under Windows
/// auth, otherwise `User Id=`/`Password=` for each non-empty credential.
pub open spec fn credential_segments(c: SqlConnection) -> Seq<Seq<char>> {
    if c.use_windows_auth {
        seq!["Integrated Security=true"@]
    } else {
        (if has_text(c.username) {
            seq!["User Id="@ + c.username->0@]
        } else {
            Seq::<Seq<char>>::empty()
        }) + (if has_text(c.password) {
            seq!["Password="@ + c.password->0@]
        } else {
            Seq::<Seq<char>>::empty()
        })
    }
}

/// All segments before the two security flags.
pub open spec fn body_segments(c: SqlConnection) -> Seq<Seq<char>> {
    seq![server_segment(c)] + database_segments(c) + credential_segments(c)
}

/// The full ordered segment list; `Encrypt=` and `TrustServerCertificate=`
/// are always the final two segments.
pub open spec fn connection_segments(c: SqlConnection) -> Seq<Seq<char>> {
    body_segments(c) + seq![
        "Encrypt="@ + bool_text(c.encrypt),
        "TrustServerCertificate="@ + bool_text(c.trust_server_cert),
    ]
}

/// The segments joined by `;`, with no leading or trailing separator.
pub open spec fn join_semicolons(parts: Seq<Seq<char>>) -> Seq<char>
    decreases parts.len(),
{
    if parts.len() == 0 {
        Seq::<char>::empty()
    } else if parts.len() == 1 {
        parts[0]
    } else {
        join_semicolons(parts.drop_last()) + ";"@ + parts.last()
    }
}

/// What `build_connection_string` returns: the raw override verbatim when
/// present and non-empty, else the joined segment list.
pub open spec fn built_connection_string(c: SqlConnection) -> Seq<char> {
    if has_text(c.connection_string) {
        c.connection_string->0@
    } else {
        join_semicolons(connection_segments(c))
    }
}

/// The views of a vector of segment strings.
pub open spec fn seg_views(parts: Seq<String>) -> Seq<Seq<char>> {
    parts.map_values(|p: String| p@)
}

/// `prefix` is the first `prefix.len()` characters of `s`.
pub open spec fn starts_with(s: Seq<char>, prefix: Seq<char>) -> bool {
    prefix.len() <= s.len() && s.take(prefix.len() as int) == prefix
}

fn server_part(conn: &SqlConnection) -> (r: String)
    ensures
        r@ == server_segment(*conn),
{
    let mut s: String = "Server=".to_owned();
    s.append(conn.server.as_str());
    if let Some(port) = &conn.port {
        if !port.as_str().is_empty() {
            s.append(",");
            s.append(port.as_str());
        }
    }
    s
}

fn connection_parts(conn: &SqlConnection) -> (r: Vec<String>)
    ensures
        seg_views(r@) == connection_segments(*conn),
{
    let mut parts: Vec<String> = Vec::new();
    parts.push(server_part(conn));
    if let Some(db) = &conn.database_name {
        if !db.as_str().is_empty() {
            let mut p: String = "Database=".to_owned();
            p.append(db.as_str());
            parts.push(p);
        }
    }
    assert(seg_views(parts@) =~= seq![server_segment(*conn)] + database_segments(*conn));
    if conn.use_windows_auth {
        parts.push("Integrated Security=true".to_owned());
    } else {
        if let Some(user) = &conn.username {
            if !user.as_str().is_empty() {
                let mut p: String = "User Id=".to_owned();
                p.append(user.as_str());
                parts.push(p);
            }
        }
        if let Some(pwd) = &conn.password {
            if !pwd.as_str().is_empty() {
                let mut p: String = "Password=".to_owned();
                p.append(pwd.as_str());
                parts.push(p);
            }
        }
    }
    assert(seg_views(parts@) =~= body_segments(*conn));
    let mut enc: String = "Encrypt=".to_owned();
    enc.append(if conn.encrypt { "true" } else { "false" });
    parts.push(enc);
    let mut trust: String = "TrustServerCertificate=".to_owned();
    trust.append(if conn.trust_server_cert { "true" } else { "false" });
    parts.push(trust);
    assert(seg_views(parts@) =~= connection_segments(*conn));
    parts
}

proof fn lemma_join_step(parts: Seq<Seq<char>>, i: int)
    requires
        0 < i < parts.len(),
    ensures
        join_semicolons(parts.take(i + 1)) == join_semicolons(parts.take(i)) + ";"@ + parts[i],
{
    assert(parts.take(i + 1).drop_last() =~= parts.take(i));
    assert(parts.take(i + 1).last() == parts[i]);
}

fn join_with_semicolons(parts: &Vec<String>) -> (r: String)
    ensures
        r@ == join_semicolons(seg_views(parts@)),
{
    let mut out = String::new();
    let mut i: usize = 0;
    while i < parts.len()
        invariant
            i <= parts@.len(),
            out@ == join_semicolons(seg_views(parts@).take(i as int)),
        decreases parts@.len() - i,
    {
        if i > 0 {
            out.append(";");
        }
        out.append(parts[i].as_str());
        proof {
            assert(seg_views(parts@)[i as int] == parts@[i as int]@);
            if i > 0 {
                lemma_join_step(seg_views(parts@), i as int);
            } else {
                assert(seg_views(parts@).take(1)[0] == seg_views(parts@)[0]);
            }
        }
        i = i + 1;
    }
    proof {
        assert(seg_views(parts@).take(parts@.len() as int) =~= seg_views(parts@));
    }
    out
}

proof fn lemma_head_mismatch(s: Seq<char>, prefix: Seq<char>)
    requires
        s.len() > 0,
        prefix.len() > 0,
        s[0] != prefix[0],
    ensures
        !starts_with(s, prefix),
{
    if starts_with(s, prefix) {
        assert(s.take(prefix.len() as int)[0] == s[0]);
    }
}

/// The shape every segment list has: the two security flags close the list,
/// and every earlier segment is recognizable by its head character, which
/// also records which optional field produced it.
proof fn lemma_segment_shape(c: SqlConnection)
    ensures
        connection_segments(c).len() >= 3,
        connection_segments(c)[connection_segments(c).len() - 2] == "Encrypt="@ + bool_text(
            c.encrypt,
        ),
        connection_segments(c)[connection_segments(c).len() - 1] == "TrustServerCertificate="@
            + bool_text(c.trust_server_cert),
        forall|i: int|
            0 <= i < connection_segments(c).len() - 2 ==> (#[trigger] connection_segments(c)[i]).len()
                > 0,
        forall|i: int|
            0 <= i < connection_segments(c).len() - 2 ==> {
                let h = (#[trigger] connection_segments(c)[i])[0];
                h == 'S' || (h == 'D' && has_text(c.database_name)) || (h == 'I'
                    && c.use_windows_auth) || (h == 'U' && !c.use_windows_auth && has_text(
                    c.username,
                )) || (h == 'P' && !c.use_windows_auth && has_text(c.password))
            },
{
    reveal_strlit("Server=");
    reveal_strlit("Database=");
    reveal_strlit("Integrated Security=true");
    reveal_strlit("User Id=");
    reveal_strlit("Password=");
    let segs = connection_segments(c);
    let body = body_segments(c);
    assert(segs.len() == body.len() + 2);
    assert(segs[segs.len() - 2] == "Encrypt="@ + bool_text(c.encrypt));
    assert(segs[segs.len() - 1] == "TrustServerCertificate="@ + bool_text(c.trust_server_cert));
    assert(server_segment(c)[0] == 'S');
    assert forall|i: int| 0 <= i < segs.len() - 2 implies (#[trigger] segs[i]).len() > 0 && {
        let h = segs[i][0];
        h == 'S' || (h == 'D' && has_text(c.database_name)) || (h == 'I' && c.use_windows_auth) || (
        h == 'U' && !c.use_windows_auth && has_text(c.username)) || (h == 'P'
            && !c.use_windows_auth && has_text(c.password))
    } by {
        assert(segs[i] == body[i]);
        let dblen = database_segments(c).len() as int;
        if i == 0 {
            assert(body[0] == server_segment(c));
        } else if i < 1 + dblen {
            assert(body[i] == database_segments(c)[i - 1]);
            assert(body[i] == "Database="@ + c.database_name->0@);
            assert(body[i][0] == 'D');
        } else {
            let j = i - 1 - dblen;
            assert(body[i] == credential_segments(c)[j]);
            if c.use_windows_auth {
                assert(credential_segments(c)[j] == "Integrated Security=true"@);
            } else {
                if has_text(c.username) && j == 0 {
                    assert(credential_segments(c)[j] == "User Id="@ + c.username->0@);
                    assert(body[i][0] == 'U');
                } else {
                    assert(has_text(c.password));
                    assert(credential_segments(c)[j] == "Password="@ + c.password->0@);
                    assert(body[i][0] == 'P');
                }
            }
        }
    }
}

/// A non-empty raw override is taken verbatim: the derived string is that
/// override, whatever the other fields hold.
pub proof fn lemma_override_taken_verbatim(c: SqlConnection)
    requires
        has_text(c.connection_string),
    ensures
        built_connection_string(c) == c.connection_string->0@,
{
}

/// Under Windows-integrated authentication no credential segment is ever
/// emitted: no segment of the composed string starts with `User Id=` or
/// `Password=`, even when the username and password fields are populated.
pub proof fn lemma_windows_auth_omits_credentials(c: SqlConnection)
    requires
        c.use_windows_auth,
    ensures
        forall|i: int|
            0 <= i < connection_segments(c).len() ==> !starts_with(
                #[trigger] connection_segments(c)[i],
                "User Id="@,
            ) && !starts_with(connection_segments(c)[i], "Password="@),
{
    lemma_segment_shape(c);
    reveal_strlit("User Id=");
    reveal_strlit("Password=");
    reveal_strlit("Encrypt=");
    reveal_strlit("TrustServerCertificate=");
    let segs = connection_segments(c);
    assert forall|i: int| 0 <= i < segs.len() implies !starts_with(
        #[trigger] segs[i],
        "User Id="@,
    ) && !starts_with(segs[i], "Password="@) by {
        if i == segs.len() - 2 {
            assert(segs[i][0] == 'E');
        } else if i == segs.len() - 1 {
            assert(segs[i][0] == 'T');
        }
        lemma_head_mismatch(segs[i], "User Id="@);
        lemma_head_mismatch(segs[i], "Password="@);
    }
}

/// An absent or empty username omits the `User Id=` segment entirely, and
/// an absent or empty password omits the `Password=` segment entirely —
/// neither is ever emitted with an empty value.
pub proof fn lemma_empty_credentials_omitted(c: SqlConnection)
    ensures
        !has_text(c.username) ==> forall|i: int|
            0 <= i < connection_segments(c).len() ==> !starts_with(
                #[trigger] connection_segments(c)[i],
                "User Id="@,
            ),
        !has_text(c.password) ==> forall|i: int|
            0 <= i < connection_segments(c).len() ==> !starts_with(
                #[trigger] connection_segments(c)[i],
                "Password="@,
            ),
{
    lemma_segment_shape(c);
    reveal_strlit("User Id=");
    reveal_strlit("Password=");
    reveal_strlit("Encrypt=");
    reveal_strlit("TrustServerCertificate=");
    let segs = connection_segments(c);
    if !has_text(c.username) {
        assert forall|i: int| 0 <= i < segs.len() implies !starts_with(
            #[trigger] segs[i],
            "User Id="@,
        ) by {
            if i == segs.len() - 2 {
                assert(segs[i][0] == 'E');
            } else if i == segs.len() - 1 {
                assert(segs[i][0] == 'T');
            }
            lemma_head_mismatch(segs[i], "User Id="@);
        }
    }
    if !has_text(c.password) {
        assert forall|i: int| 0 <= i < segs.len() implies !starts_with(
            #[trigger] segs[i],
            "Password="@,
        ) by {
            if i == segs.len() - 2 {
                assert(segs[i][0] == 'E');
            } else if i == segs.len() - 1 {
                assert(segs[i][0] == 'T');
            }
            lemma_head_mismatch(segs[i], "Password="@);
        }
    }
}

/// The composed segment list always carries exactly one `Encrypt=` and one
/// `TrustServerCertificate=` segment: they are its final two entries, their
/// values spell the boolean flags, and no earlier segment carries either
/// key.
pub proof fn lemma_security_flags_always_present(c: SqlConnection)
    ensures
        connection_segments(c).len() >= 3,
        connection_segments(c)[connection_segments(c).len() - 2] == "Encrypt="@ + bool_text(
            c.encrypt,
        ),
        connection_segments(c)[connection_segments(c).len() - 1] == "TrustServerCertificate="@
            + bool_text(c.trust_server_cert),
        forall|i: int|
            0 <= i < connection_segments(c).len() - 2 ==> !starts_with(
                #[trigger] connection_segments(c)[i],
                "Encrypt="@,
            ) && !starts_with(connection_segments(c)[i], "TrustServerCertificate="@),
{
    lemma_segment_shape(c);
    reveal_strlit("Encrypt=");
    reveal_strlit("TrustServerCertificate=");
    let segs = connection_segments(c);
    assert forall|i: int| 0 <= i < segs.len() - 2 implies !starts_with(
        #[trigger] segs[i],
        "Encrypt="@,
    ) && !starts_with(segs[i], "TrustServerCertificate="@) by {
        lemma_head_mismatch(segs[i], "Encrypt="@);
        lemma_head_mismatch(segs[i], "TrustServerCertificate="@);
    }
}

/// Derives the connection string for `conn`: the raw override verbatim when
/// present and non-empty, otherwise the ordered `Key=Value` segments joined
/// by semicolons. Total: every profile yields a string.
pub fn build_connection_string(conn: &SqlConnection) -> (r: String)
    ensures
        r@ == built_connection_string(*conn),
{
    if let Some(cs) = &conn.connection_string {
        if !cs.as_str().is_empty() {
            return cs.clone();
        }
    }
    let parts = connection_parts(conn);
    join_with_semicolons(&parts)
}

} // verus!

//! Laws of resolution, stated over the model that the resolver's contract uses.

use vstd::prelude::*;
use crate::resolve::{
    ConfigurationError, FileLayer, env_key, env_value, fails, file_value, first_failure,
    lower_of, raw_value, resolution, resolved,
};
use crate::settings::{Field, Settings, default_view};

verus! {

/// With no file entries and no environment variables, no field fails and every
/// field holds its default.
pub proof fn lemma_no_input_gives_defaults()
    ensures
        first_failure(Seq::empty(), Seq::empty()).is_none(),
        resolved(Seq::empty(), Seq::empty()) == default_view(),
{
    let e = Seq::<(String, String)>::empty();
    assert forall|f: Field| raw_value(e, e, f).is_none() by {
        assert(env_value(e, f).is_none());
        assert(file_value(e, f).is_none());
    }
    assert(raw_value(e, e, Field::Debug).is_none());
    assert(raw_value(e, e, Field::Port).is_none());
    assert(raw_value(e, e, Field::Host).is_none());
    assert(raw_value(e, e, Field::DatabaseUrl).is_none());
    assert(raw_value(e, e, Field::DatabasePoolMaxSize).is_none());
    assert(raw_value(e, e, Field::DatabaseUseTestTransactions).is_none());
    assert(raw_value(e, e, Field::HumanLogs).is_none());
    assert(raw_value(e, e, Field::StatsdHost).is_none());
    assert(raw_value(e, e, Field::StatsdPort).is_none());
    assert(raw_value(e, e, Field::StatsdLabel).is_none());
}

/// A value that only the configuration file sets is the value the field takes.
pub proof fn lemma_file_value_used(
    file: Seq<(String, String)>,
    env: Seq<(String, String)>,
    key: String,
    value: String,
    f: Field,
)
    requires
        key@ == f.name_spec(),
        env_value(env, f).is_none(),
    ensures
        raw_value(file.push((key, value)), env, f) == Some(value@),
{
    assert(file.push((key, value)).last() == (key, value));
}

/// A value set by an environment variable for a field is the value the field
/// takes, whatever the configuration file says.
pub proof fn lemma_env_value_wins(
    file: Seq<(String, String)>,
    env: Seq<(String, String)>,
    key: String,
    value: String,
    f: Field,
)
    requires
        lower_of(key@) == env_key(f),
    ensures
        raw_value(file, env.push((key, value)), f) == Some(value@),
{
    assert(env.push((key, value)).last() == (key, value));
}

/// Two environment variable names with the same lower-case form set the same field
/// to the same value.
pub proof fn lemma_env_name_case_insensitive(
    file: Seq<(String, String)>,
    env: Seq<(String, String)>,
    k1: String,
    k2: String,
    value: String,
    f: Field,
)
    requires
        lower_of(k1@) == lower_of(k2@),
    ensures
        raw_value(file, env.push((k1, value)), f) == raw_value(file, env.push((k2, value)), f),
{
    assert(env.push((k1, value)).last() == (k1, value));
    assert(env.push((k2, value)).last() == (k2, value));
    assert(env.push((k1, value)).drop_last() =~= env);
    assert(env.push((k2, value)).drop_last() =~= env);
}

/// An environment variable whose lower-case name does not start with the prefix
/// changes no field.
pub proof fn lemma_unprefixed_env_ignored(
    file: Seq<(String, String)>,
    env: Seq<(String, String)>,
    key: String,
    value: String,
    f: Field,
)
    requires
        !(lower_of(key@).len() >= 9 && lower_of(key@).subrange(0, 9) == "autoend__"@),
    ensures
        raw_value(file, env.push((key, value)), f) == raw_value(file, env, f),
{
    reveal_strlit("autoend__");
    let k = env_key(f);
    assert(k.subrange(0, 9) =~= "autoend__"@);
    assert(lower_of(key@) != k);
    assert(env.push((key, value)).last() == (key, value));
    assert(env.push((key, value)).drop_last() =~= env);
}

/// A field whose value cannot be turned into its type leaves resolution with
/// no settings, and the field it reports does fail.
pub proof fn lemma_bad_value_rejected(
    file: Seq<(String, String)>,
    env: Seq<(String, String)>,
    f: Field,
)
    requires
        fails(file, env, f),
    ensures
        first_failure(file, env).is_some(),
        fails(file, env, first_failure(file, env).unwrap()),
{
}

/// When one field alone cannot be turned into its type, resolution reports that field.
pub proof fn lemma_sole_bad_value_named(
    file: Seq<(String, String)>,
    env: Seq<(String, String)>,
    f: Field,
)
    requires
        fails(file, env, f),
        forall|g: Field| g != f ==> !fails(file, env, g),
    ensures
        first_failure(file, env) == Some(f),
{
}

/// Resolving twice from the same file layer and environment gives equal outcomes.
pub proof fn lemma_resolution_repeatable(
    file: FileLayer,
    env: Seq<(String, String)>,
    r1: Result<Settings, ConfigurationError>,
    r2: Result<Settings, ConfigurationError>,
)
    requires
        resolution(file, env, r1),
        resolution(file, env, r2),
    ensures
        match (r1, r2) {
            (Ok(a), Ok(b)) => a@ == b@,
            (Err(_), Err(_)) => true,
            _ => false,
        },
{
}

} // verus!

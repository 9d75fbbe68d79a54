//! Collapses stored preference rows into the typed preferences, and
//! validates theme updates.

use vstd::prelude::*;

use crate::models::AppPreference;
use crate::models::Preferences;

verus! {

/// The theme the stored rows determine: the value of the last row keyed
/// `theme`, or `system` when no row sets one.
pub open spec fn theme_of_rows(rows: Seq<AppPreference>) -> Seq<char>
    decreases rows.len(),
{
    if rows.len() == 0 {
        "system"@
    } else if rows.last().key@ == "theme"@ {
        rows.last().value@
    } else {
        theme_of_rows(rows.drop_last())
    }
}

/// Folds the stored key/value rows into the typed preferences; rows with
/// unknown keys are ignored.
pub fn preferences_from_rows(rows: &Vec<AppPreference>) -> (r: Preferences)
    ensures
        r.theme@ == theme_of_rows(rows@),
{
    let mut prefs = Preferences::default();
    let theme_key: String = "theme".to_owned();
    let mut i: usize = 0;
    while i < rows.len()
        invariant
            i <= rows@.len(),
            theme_key@ == "theme"@,
            prefs.theme@ == theme_of_rows(rows@.take(i as int)),
        decreases rows@.len() - i,
    {
        if rows[i].key.eq(&theme_key) {
            prefs.theme = rows[i].value.clone();
        }
        proof {
            assert(rows@.take(i as int + 1).drop_last() =~= rows@.take(i as int));
            assert(rows@.take(i as int + 1).last() == rows@[i as int]);
        }
        i = i + 1;
    }
    proof {
        assert(rows@.take(rows@.len() as int) =~= rows@);
    }
    prefs
}

/// Accepts exactly the three supported theme names; anything else is
/// rejected with the fixed validation message.
pub fn validate_theme(theme: &String) -> (r: Result<(), String>)
    ensures
        r is Ok <==> (theme@ == "light"@ || theme@ == "dark"@ || theme@ == "system"@),
        r is Err ==> r->Err_0@ == "Invalid theme value. Must be 'light', 'dark', or 'system'"@,
{
    let light: String = "light".to_owned();
    let dark: String = "dark".to_owned();
    let system: String = "system".to_owned();
    if theme.eq(&light) || theme.eq(&dark) || theme.eq(&system) {
        Ok(())
    } else {
        Err("Invalid theme value. Must be 'light', 'dark', or 'system'".to_owned())
    }
}

} // verus!

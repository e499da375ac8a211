//! What holds of shortcuts and of the configuration.

use vstd::prelude::*;
use vstd::string::*;

use crate::config;
use crate::config::ConfigView;
use crate::text;
use crate::text_laws;

verus! {

/// A shortcut in which no short name of a modifier key is left.
pub open spec fn is_spelled_out(shortcut: Seq<char>) -> bool {
    !text::occurs_in(shortcut, "Cmd"@) && !text::occurs_in(shortcut, "Ctrl"@)
}

proof fn lemma_literals()
    ensures
        text_laws::never_forms("Cmd"@, "Command"@, "Cmd"@, 0),
        text_laws::never_forms("Ctrl"@, "Control"@, "Ctrl"@, 0),
        text_laws::never_forms("Ctrl"@, "Control"@, "Cmd"@, 0),
        text_laws::is_tidy("Command"@),
        text_laws::is_tidy("Control"@),
        text_laws::is_tidy("CommandOrControl"@),
        "CmdOrControl"@.subrange(0, 3) == "Cmd"@,
        "CmdOrCtrl"@.subrange(0, 3) == "Cmd"@,
        "Cmd"@.len() == 3,
        "CmdOrControl"@.len() >= 3,
        "CmdOrCtrl"@.len() >= 3,
{
    reveal_strlit("Cmd");
    reveal_strlit("Ctrl");
    reveal_strlit("Command");
    reveal_strlit("Control");
    reveal_strlit("CommandOrControl");
    reveal_strlit("CmdOrControl");
    reveal_strlit("CmdOrCtrl");
    assert("CmdOrControl"@.subrange(0, 3) =~= "Cmd"@);
    assert("CmdOrCtrl"@.subrange(0, 3) =~= "Cmd"@);
}

proof fn lemma_longer_name_absent(s: Seq<char>, long: Seq<char>)
    requires
        !text::occurs_in(s, "Cmd"@),
        long.len() >= 3,
        long.subrange(0, 3) == "Cmd"@,
        "Cmd"@.len() == 3,
    ensures
        !text::occurs_in(s, long),
{
    assert forall|at: int| !#[trigger] text::occurs_at(s, long, at) by {
        if text::occurs_at(s, long, at) {
            assert(s.subrange(at, at + 3) =~= s.subrange(at, at + long.len()).subrange(0, 3));
            assert(text::occurs_at(s, "Cmd"@, at));
        }
    }
}

/// A normalised shortcut holds no short name of a modifier key, and is empty or
/// begins and ends with something other than white space.
pub proof fn law_normalized_shortcut_is_spelled_out(shortcut: Seq<char>)
    ensures
        is_spelled_out(config::normalized_shortcut(shortcut)),
        config::normalized_shortcut(shortcut).len() == 0 || text_laws::is_tidy(
            config::normalized_shortcut(shortcut),
        ),
{
    lemma_literals();
    let t = text::trimmed(shortcut);
    let s1 = text::replaced(t, "CmdOrControl"@, "CommandOrControl"@);
    let s2 = text::replaced(s1, "CmdOrCtrl"@, "CommandOrControl"@);
    let s3 = text::replaced(s2, "Cmd"@, "Command"@);
    text_laws::lemma_replacement_leaves_none(s2, "Cmd"@, "Command"@, "Cmd"@, 0);
    text_laws::lemma_replacement_leaves_none(s3, "Ctrl"@, "Control"@, "Ctrl"@, 0);
    text_laws::lemma_replacement_leaves_none(s3, "Ctrl"@, "Control"@, "Cmd"@, 0);
    text_laws::law_trimmed_is_tidy(shortcut);
    text_laws::lemma_replacement_keeps_tidy(t, "CmdOrControl"@, "CommandOrControl"@);
    text_laws::lemma_replacement_keeps_tidy(s1, "CmdOrCtrl"@, "CommandOrControl"@);
    text_laws::lemma_replacement_keeps_tidy(s2, "Cmd"@, "Command"@);
    text_laws::lemma_replacement_keeps_tidy(s3, "Ctrl"@, "Control"@);
}

proof fn lemma_spelled_out_is_kept(s: Seq<char>)
    requires
        is_spelled_out(s),
        s.len() == 0 || text_laws::is_tidy(s),
    ensures
        config::normalized_shortcut(s) == s,
{
    lemma_literals();
    text_laws::lemma_tidy_is_trimmed(s);
    lemma_longer_name_absent(s, "CmdOrControl"@);
    lemma_longer_name_absent(s, "CmdOrCtrl"@);
    text_laws::law_replacing_nothing(s, "CmdOrControl"@, "CommandOrControl"@);
    text_laws::law_replacing_nothing(s, "CmdOrCtrl"@, "CommandOrControl"@);
    text_laws::law_replacing_nothing(s, "Cmd"@, "Command"@);
    text_laws::law_replacing_nothing(s, "Ctrl"@, "Control"@);
}

/// Normalising a shortcut again changes nothing.
pub proof fn law_normalizing_a_shortcut_is_idempotent(shortcut: Seq<char>)
    ensures
        config::normalized_shortcut(config::normalized_shortcut(shortcut))
            == config::normalized_shortcut(shortcut),
{
    law_normalized_shortcut_is_spelled_out(shortcut);
    lemma_spelled_out_is_kept(config::normalized_shortcut(shortcut));
}

proof fn lemma_default_shortcut_is_normal()
    ensures
        config::normalized_shortcut(config::DEFAULT_SHORTCUT@) == config::DEFAULT_SHORTCUT@,
        !text::is_blank(config::DEFAULT_SHORTCUT@),
{
    let d = config::DEFAULT_SHORTCUT@;
    reveal_strlit("Command+Control+S");
    reveal_strlit("Cmd");
    reveal_strlit("Ctrl");
    assert(text_laws::is_tidy(d));
    assert forall|at: int| !#[trigger] text::occurs_at(d, "Cmd"@, at) by {
        if text::occurs_at(d, "Cmd"@, at) {
            let found = d.subrange(at, at + 3);
            assert(found[0] == 'C' && found[1] == 'm');
            assert(d[at] == 'C' && d[at + 1] == 'm');
        }
    }
    assert forall|at: int| !#[trigger] text::occurs_at(d, "Ctrl"@, at) by {
        if text::occurs_at(d, "Ctrl"@, at) {
            let found = d.subrange(at, at + 4);
            assert(found[0] == 'C' && found[1] == 't');
            assert(d[at] == 'C' && d[at + 1] == 't');
        }
    }
    lemma_spelled_out_is_kept(d);
    text_laws::lemma_tidy_is_trimmed(d);
}

/// Migrating a configuration again changes nothing: what a start writes back is
/// what the next start begins with.
pub proof fn law_migration_is_idempotent(saved: ConfigView)
    ensures
        config::migrated(config::migrated(saved)) == config::migrated(saved),
{
    law_normalizing_a_shortcut_is_idempotent(saved.shortcut);
    lemma_default_shortcut_is_normal();
    assert(!text::is_blank(config::DEFAULT_GEMINI_MODEL@)) by {
        reveal_strlit("gemini-2.5-flash");
        text_laws::lemma_tidy_is_trimmed(config::DEFAULT_GEMINI_MODEL@);
    }
}

/// The default configuration is in the current layout: a second start begins with
/// what the first one wrote.
pub proof fn law_default_config_is_migrated()
    ensures
        config::migrated(config::default_config()) == config::default_config(),
{
    lemma_default_shortcut_is_normal();
    assert(!text::is_blank(config::DEFAULT_GEMINI_MODEL@)) by {
        reveal_strlit("gemini-2.5-flash");
        text_laws::lemma_tidy_is_trimmed(config::DEFAULT_GEMINI_MODEL@);
    }
}

/// A migrated configuration has the current version, and a shortcut, a model and a
/// prompt that are not blank.
pub proof fn law_migrated_config_is_complete(saved: ConfigView)
    ensures
        config::migrated(saved).config_version == config::CONFIG_VERSION,
        !text::is_blank(config::migrated(saved).shortcut),
        !text::is_blank(config::migrated(saved).gemini_model),
        !text::is_blank(config::migrated(saved).gemini_prompt),
{
    lemma_default_shortcut_is_normal();
    reveal_strlit("gemini-2.5-flash");
    text_laws::lemma_tidy_is_trimmed(config::DEFAULT_GEMINI_MODEL@);
    reveal_strlit(
        "Rewrite the selected text for speech.\n\n1. Preserve the meaning.\n2. Make the wording sound natural when spoken aloud.\n3. Keep technical terms precise.\n4. Expand abbreviations only when that improves pronunciation.\n5. Keep code-adjacent phrases readable for a senior software engineer.\n\nReturn only the rewritten text.",
    );
    text_laws::lemma_tidy_is_trimmed(config::DEFAULT_GEMINI_PROMPT@);
}

proof fn lemma_replacing_keeps_something(s: Seq<char>, from: Seq<char>, to: Seq<char>)
    requires
        s.len() > 0,
        from.len() > 0,
        to.len() > 0,
    ensures
        text::replaced(s, from, to).len() > 0,
{
}

/// A shortcut that is not blank is not blank once it is normalised.
pub proof fn law_normalizing_keeps_a_shortcut(shortcut: Seq<char>)
    requires
        !text::is_blank(shortcut),
    ensures
        !text::is_blank(config::normalized_shortcut(shortcut)),
{
    lemma_literals();
    reveal_strlit("CmdOrControl");
    reveal_strlit("CmdOrCtrl");
    reveal_strlit("CommandOrControl");
    reveal_strlit("Cmd");
    reveal_strlit("Ctrl");
    reveal_strlit("Command");
    reveal_strlit("Control");
    let s0 = text::trimmed(shortcut);
    let s1 = text::replaced(s0, "CmdOrControl"@, "CommandOrControl"@);
    let s2 = text::replaced(s1, "CmdOrCtrl"@, "CommandOrControl"@);
    let s3 = text::replaced(s2, "Cmd"@, "Command"@);
    lemma_replacing_keeps_something(s0, "CmdOrControl"@, "CommandOrControl"@);
    lemma_replacing_keeps_something(s1, "CmdOrCtrl"@, "CommandOrControl"@);
    lemma_replacing_keeps_something(s2, "Cmd"@, "Command"@);
    lemma_replacing_keeps_something(s3, "Ctrl"@, "Control"@);
    law_normalized_shortcut_is_spelled_out(shortcut);
    text_laws::lemma_tidy_is_trimmed(config::normalized_shortcut(shortcut));
}

/// Whether a configuration comes back unchanged when it is saved and loaded again.
pub open spec fn is_settled(saved: ConfigView) -> bool {
    config::migrated(saved) == saved
}

/// Whatever was found on disk, the configuration that a start begins with comes back
/// unchanged when it is saved and loaded again.
pub proof fn law_initial_config_is_settled(saved: Option<ConfigView>)
    ensures
        is_settled(config::initial_config(saved)),
{
    law_default_config_is_migrated();
    if let Some(found) = saved {
        law_migration_is_idempotent(found);
    }
}

// ---------------------------------------------------------------------------
// What normalising and migrating change
// ---------------------------------------------------------------------------

/// A tidy shortcut without short names of modifier keys is kept as it is.
pub proof fn law_a_spelled_out_shortcut_is_kept(shortcut: Seq<char>)
    requires
        !text::occurs_in(shortcut, "Cmd"@),
        !text::occurs_in(shortcut, "Ctrl"@),
    ensures
        config::normalized_shortcut(shortcut) == text::trimmed(shortcut),
{
    let t = text::trimmed(shortcut);
    let at = crate::character_laws::law_trimmed_is_the_middle(shortcut);
    assert forall|i: int| !#[trigger] text::occurs_at(t, "Cmd"@, i) by {
        if text::occurs_at(t, "Cmd"@, i) {
            assert(shortcut.subrange(at + i, at + i + "Cmd"@.len()) =~= t.subrange(
                i,
                i + "Cmd"@.len(),
            ));
            assert(text::occurs_at(shortcut, "Cmd"@, at + i));
        }
    }
    assert forall|i: int| !#[trigger] text::occurs_at(t, "Ctrl"@, i) by {
        if text::occurs_at(t, "Ctrl"@, i) {
            assert(shortcut.subrange(at + i, at + i + "Ctrl"@.len()) =~= t.subrange(
                i,
                i + "Ctrl"@.len(),
            ));
            assert(text::occurs_at(shortcut, "Ctrl"@, at + i));
        }
    }
    text_laws::law_trimmed_is_tidy(shortcut);
    text_laws::law_trimming_is_idempotent(shortcut);
    lemma_spelled_out_is_kept(t);
}

proof fn lemma_one_name(
    before: Seq<char>,
    short: Seq<char>,
    long: Seq<char>,
    behind: Seq<char>,
)
    requires
        short.len() > 0,
        !text::occurs_in(before + short.drop_last(), short),
        !text::occurs_in(behind, short),
    ensures
        text::replaced(before + short + behind, short, long) == before + long + behind,
{
    let s = before + short + behind;
    let at = before.len() as int;
    assert(s.subrange(at, at + short.len()) =~= short);
    assert forall|i: int| 0 <= i < at implies #[trigger] s.subrange(i, i + short.len()) != short by {
        let front = before + short.drop_last();
        if s.subrange(i, i + short.len()) == short {
            assert(front.subrange(i, i + short.len()) =~= s.subrange(i, i + short.len()));
            assert(text::occurs_at(front, short, i));
        }
    }
    crate::character_laws::law_replacing_the_first_occurrence(s, short, long, at);
    assert(s.subrange(0, at) =~= before);
    assert(s.subrange(at + short.len(), s.len() as int) =~= behind);
    text_laws::law_replacing_nothing(behind, short, long);
}

/// Whether a text holds no capital C, with which all names of modifier keys begin.
spec fn is_nameless(s: Seq<char>) -> bool {
    forall|i: int| 0 <= i < s.len() ==> #[trigger] s[i] != 'C'
}

/// Whether a name differs from what stands at a place, by its length or by one of the
/// characters that tell the names apart.
spec fn differs(s: Seq<char>, name: Seq<char>, at: int) -> bool {
    ||| s.len() < at + name.len()
    ||| name.len() > 1 && s[at + 1] != name[1]
    ||| name.len() > 4 && s[at + 3] != name[3]
    ||| name.len() > 4 && s[at + 4] != name[4]
    ||| name.len() > 6 && s[at + 6] != name[6]
}

proof fn lemma_absent(before: Seq<char>, x: Seq<char>, behind: Seq<char>, name: Seq<char>)
    requires
        is_nameless(before),
        is_nameless(behind),
        name.len() > 0,
        name[0] == 'C',
        forall|k: int| 0 <= k < x.len() && #[trigger] x[k] == 'C' ==> differs(x + behind, name, k),
    ensures
        !text::occurs_in(before + x + behind, name),
{
    let s = before + x + behind;
    assert forall|at: int| !#[trigger] text::occurs_at(s, name, at) by {
        if text::occurs_at(s, name, at) {
            let found = s.subrange(at, at + name.len());
            assert(found[0] == s[at]);
            if at < before.len() {
                assert(s[at] == before[at]);
            } else if at >= before.len() + x.len() {
                assert(s[at] == behind[at - before.len() - x.len()]);
            } else {
                let k = at - before.len();
                assert(s[at] == x[k]);
                assert(differs(x + behind, name, k));
                let y = x + behind;
                assert(y.len() >= k + name.len());
                if name.len() > 1 {
                    assert(found[1] == y[k + 1]);
                }
                if name.len() > 4 {
                    assert(found[3] == y[k + 3]);
                    assert(found[4] == y[k + 4]);
                }
                if name.len() > 6 {
                    assert(found[6] == y[k + 6]);
                }
            }
        }
    }
}

proof fn lemma_tidy_name(before: Seq<char>, name: Seq<char>, behind: Seq<char>)
    requires
        name.len() > 0,
        !text::is_space(name[0]),
        !text::is_space(name[name.len() - 1]),
        before.len() > 0 ==> !text::is_space(before[0]),
        behind.len() > 0 ==> !text::is_space(behind[behind.len() - 1]),
    ensures
        text::trimmed(before + name + behind) == before + name + behind,
{
    let s = before + name + behind;
    assert(!text::is_space(s[0]));
    assert(!text::is_space(s[s.len() - 1]));
    text_laws::lemma_tidy_is_trimmed(s);
}

/// One replacement where the short name is there, between texts without names.
proof fn lemma_spelled(before: Seq<char>, short: Seq<char>, long: Seq<char>, behind: Seq<char>)
    requires
        is_nameless(before),
        is_nameless(behind),
        short.len() > 1,
        short[0] == 'C',
    ensures
        text::replaced(before + short + behind, short, long) == before + long + behind,
{
    let none = Seq::<char>::empty();
    let part = short.drop_last();
    assert(before + part + none =~= before + part);
    assert forall|k: int| 0 <= k < part.len() && #[trigger] part[k] == 'C' implies differs(
        part + none,
        short,
        k,
    ) by {}
    lemma_absent(before, part, none, short);
    assert(none + none + behind =~= behind);
    lemma_absent(none, none, behind, short);
    lemma_one_name(before, short, long, behind);
}

proof fn lemma_command(before: Seq<char>, behind: Seq<char>)
    requires
        is_nameless(before),
        is_nameless(behind),
    ensures
        !text::occurs_in(before + "CommandOrControl"@ + behind, "CmdOrCtrl"@),
        !text::occurs_in(before + "CommandOrControl"@ + behind, "Cmd"@),
        !text::occurs_in(before + "CommandOrControl"@ + behind, "Ctrl"@),
        !text::occurs_in(before + "Command"@ + behind, "Ctrl"@),
{
    reveal_strlit("CommandOrControl");
    reveal_strlit("Command");
    reveal_strlit("CmdOrCtrl");
    reveal_strlit("Cmd");
    reveal_strlit("Ctrl");
    lemma_absent(before, "CommandOrControl"@, behind, "CmdOrCtrl"@);
    lemma_absent(before, "CommandOrControl"@, behind, "Cmd"@);
    lemma_absent(before, "CommandOrControl"@, behind, "Ctrl"@);
    lemma_absent(before, "Command"@, behind, "Ctrl"@);
}

proof fn lemma_short_names(before: Seq<char>, behind: Seq<char>)
    requires
        is_nameless(before),
        is_nameless(behind),
        behind.len() >= 2 ==> !(behind[0] == 'O' && behind[1] == 'r'),
    ensures
        !text::occurs_in(before + "Cmd"@ + behind, "CmdOrControl"@),
        !text::occurs_in(before + "Cmd"@ + behind, "CmdOrCtrl"@),
        !text::occurs_in(before + "Ctrl"@ + behind, "CmdOrControl"@),
        !text::occurs_in(before + "Ctrl"@ + behind, "CmdOrCtrl"@),
        !text::occurs_in(before + "Ctrl"@ + behind, "Cmd"@),
        !text::occurs_in(before + "CmdOrCtrl"@ + behind, "CmdOrControl"@),
{
    reveal_strlit("CmdOrControl");
    reveal_strlit("CmdOrCtrl");
    reveal_strlit("Cmd");
    reveal_strlit("Ctrl");
    lemma_absent(before, "Cmd"@, behind, "CmdOrControl"@);
    lemma_absent(before, "Cmd"@, behind, "CmdOrCtrl"@);
    lemma_absent(before, "Ctrl"@, behind, "CmdOrControl"@);
    lemma_absent(before, "Ctrl"@, behind, "CmdOrCtrl"@);
    lemma_absent(before, "Ctrl"@, behind, "Cmd"@);
    lemma_absent(before, "CmdOrCtrl"@, behind, "CmdOrControl"@);
}

/// A short name of a modifier key that stands alone in a tidy shortcut is spelled out in
/// its place, and nothing else changes.
pub proof fn law_a_short_name_is_spelled_out_in_place(before: Seq<char>, behind: Seq<char>)
    requires
        !text::occurs_in(before, "C"@),
        !text::occurs_in(behind, "C"@),
        before.len() > 0 ==> !text::is_space(before[0]),
        behind.len() > 0 ==> !text::is_space(behind[behind.len() - 1]),
        !text::occurs_at(behind, "Or"@, 0),
    ensures
        config::normalized_shortcut(before + "Cmd"@ + behind) == before + "Command"@ + behind,
        config::normalized_shortcut(before + "Ctrl"@ + behind) == before + "Control"@ + behind,
        config::normalized_shortcut(before + "CmdOrCtrl"@ + behind) == before
            + "CommandOrControl"@ + behind,
        config::normalized_shortcut(before + "CmdOrControl"@ + behind) == before
            + "CommandOrControl"@ + behind,
{
    reveal_strlit("C");
    reveal_strlit("Or");
    reveal_strlit("Cmd");
    reveal_strlit("Ctrl");
    reveal_strlit("Command");
    reveal_strlit("Control");
    reveal_strlit("CommandOrControl");
    reveal_strlit("CmdOrControl");
    reveal_strlit("CmdOrCtrl");
    assert forall|i: int| 0 <= i < before.len() implies #[trigger] before[i] != 'C' by {
        if before[i] == 'C' {
            assert(before.subrange(i, i + 1) =~= "C"@);
            assert(text::occurs_at(before, "C"@, i));
        }
    }
    assert forall|i: int| 0 <= i < behind.len() implies #[trigger] behind[i] != 'C' by {
        if behind[i] == 'C' {
            assert(behind.subrange(i, i + 1) =~= "C"@);
            assert(text::occurs_at(behind, "C"@, i));
        }
    }
    assert(behind.len() >= 2 ==> !(behind[0] == 'O' && behind[1] == 'r')) by {
        if behind.len() >= 2 && behind[0] == 'O' && behind[1] == 'r' {
            assert(behind.subrange(0, 2) =~= "Or"@);
        }
    }
    lemma_short_names(before, behind);
    lemma_command(before, behind);
    lemma_tidy_name(before, "Cmd"@, behind);
    lemma_tidy_name(before, "Ctrl"@, behind);
    lemma_tidy_name(before, "CmdOrCtrl"@, behind);
    lemma_tidy_name(before, "CmdOrControl"@, behind);
    lemma_spelled(before, "Cmd"@, "Command"@, behind);
    lemma_spelled(before, "Ctrl"@, "Control"@, behind);
    lemma_spelled(before, "CmdOrCtrl"@, "CommandOrControl"@, behind);
    lemma_spelled(before, "CmdOrControl"@, "CommandOrControl"@, behind);
    let cmd = before + "Cmd"@ + behind;
    text_laws::law_replacing_nothing(cmd, "CmdOrControl"@, "CommandOrControl"@);
    text_laws::law_replacing_nothing(cmd, "CmdOrCtrl"@, "CommandOrControl"@);
    text_laws::law_replacing_nothing(before + "Command"@ + behind, "Ctrl"@, "Control"@);
    let ctrl = before + "Ctrl"@ + behind;
    text_laws::law_replacing_nothing(ctrl, "CmdOrControl"@, "CommandOrControl"@);
    text_laws::law_replacing_nothing(ctrl, "CmdOrCtrl"@, "CommandOrControl"@);
    text_laws::law_replacing_nothing(ctrl, "Cmd"@, "Command"@);
    let either = before + "CommandOrControl"@ + behind;
    text_laws::law_replacing_nothing(
        before + "CmdOrCtrl"@ + behind,
        "CmdOrControl"@,
        "CommandOrControl"@,
    );
    text_laws::law_replacing_nothing(either, "CmdOrCtrl"@, "CommandOrControl"@);
    text_laws::law_replacing_nothing(either, "Cmd"@, "Command"@);
    text_laws::law_replacing_nothing(either, "Ctrl"@, "Control"@);
}

/// The names are spelled out one after the other, the longest first, each wherever it then
/// occurs.
pub proof fn law_names_are_spelled_out_in_turn(shortcut: Seq<char>)
    ensures
        ({
            let t = text::trimmed(shortcut);
            let t = text::replaced(t, "CmdOrControl"@, "CommandOrControl"@);
            let t = text::replaced(t, "CmdOrCtrl"@, "CommandOrControl"@);
            let t = text::replaced(t, "Cmd"@, "Command"@);
            let t = text::replaced(t, "Ctrl"@, "Control"@);
            config::normalized_shortcut(shortcut) == t
        }),
{
}

/// Migration brings the version up to date, spells the shortcut out and fills in a
/// shortcut, a model and a prompt that are blank. Every other setting is kept.
pub proof fn law_what_migration_changes(saved: ConfigView)
    ensures
        ({
            let after = config::migrated(saved);
            let shortcut = config::normalized_shortcut(saved.shortcut);
            &&& after.config_version == 1
            &&& after.shortcut == if text::trimmed(shortcut).len() > 0 {
                shortcut
            } else {
                "Command+Control+S"@
            }
            &&& after.gemini_model == if text::trimmed(saved.gemini_model).len() > 0 {
                saved.gemini_model
            } else {
                "gemini-2.5-flash"@
            }
            &&& after.gemini_prompt == if text::trimmed(saved.gemini_prompt).len() > 0 {
                saved.gemini_prompt
            } else {
                config::DEFAULT_GEMINI_PROMPT@
            }
            &&& after.gemini_enabled == saved.gemini_enabled
            &&& after.voice_gender == saved.voice_gender
            &&& after.voice_model == saved.voice_model
            &&& after.voice_preset == saved.voice_preset
            &&& after.tts_precision == saved.tts_precision
            &&& after.default_chunk_size == saved.default_chunk_size
            &&& after.http_port == saved.http_port
        }),
{
}

/// A start begins with what was saved, migrated, and with the built-in settings where
/// nothing was.
pub proof fn law_what_a_start_begins_with(saved: Option<ConfigView>)
    ensures
        saved matches Some(found) ==> config::initial_config(saved) == config::migrated(found),
        saved is None ==> config::initial_config(saved) == (ConfigView {
            config_version: 1,
            gemini_enabled: false,
            gemini_model: "gemini-2.5-flash"@,
            gemini_prompt: config::DEFAULT_GEMINI_PROMPT@,
            shortcut: "Command+Control+S"@,
            voice_gender: config::VoiceGender::Woman,
            voice_model: config::VoiceModel::VibeVoiceRealtime,
            voice_preset: Seq::empty(),
            tts_precision: config::TtsPrecision::Auto,
            default_chunk_size: 220,
            http_port: 9876,
        }),
{
}

} // verus!

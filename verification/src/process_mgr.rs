//! The target programs: which running processes are killed, and what is
//! started.

use vstd::prelude::*;

verus! {

/// The directory of the target programs.
pub const HETCUU_DIR: &'static str = "C:\\Program Files (x86)\\NetSupport\\NetSupport School";

/// The file names of the target programs, in the order in which they are
/// started.
pub open spec fn targets() -> Seq<Seq<char>> {
    seq!["client32.exe"@, "runplugin.exe"@, "runplugin64.exe"@]
}

/// The file names of the target programs, in the order in which they are
/// started.
pub fn target_processes() -> (names: Vec<String>)
    ensures
        names@.map_values(|s: String| s@) == targets(),
{
    let names = vec![
        "client32.exe".to_owned(),
        "runplugin.exe".to_owned(),
        "runplugin64.exe".to_owned(),
    ];
    assert(names@.map_values(|s: String| s@) =~= targets());
    names
}

/// A text in lower case, as `str::to_lowercase` gives it.
pub uninterp spec fn lowercase(text: Seq<char>) -> Seq<char>;

/// The lower-case form of an ASCII character.
pub open spec fn ascii_lower(c: char) -> char {
    if 'A' <= c <= 'Z' {
        (c as u32 + 32) as char
    } else {
        c
    }
}

/// A text with its letters from A to Z replaced by those from a to z.
pub open spec fn ascii_lowercase(text: Seq<char>) -> Seq<char> {
    text.map_values(|c: char| ascii_lower(c))
}

/// Calls `str::to_lowercase`. The result depends on the text alone. A text of
/// ASCII characters has its letters from A to Z replaced by those from a to z.
#[verifier::external_body]
fn to_lowercase(text: &str) -> (lower: String)
    ensures
        lower@ == lowercase(text@),
        vstd::utf8::is_ascii_chars(text@) ==> lower@ == ascii_lowercase(text@),
{
    text.to_lowercase()
}

/// Whether a name in lower case is that of a target program.
pub fn names_target(lower: &String) -> (b: bool)
    ensures
        b == targets().contains(lower@),
{
    let names = target_processes();
    let ghost all = names@.map_values(|s: String| s@);
    let mut i: usize = 0;
    while i < names.len()
        invariant
            i <= names.len(),
            all == names@.map_values(|s: String| s@),
            all == targets(),
            forall|j: int| 0 <= j < i ==> #[trigger] all[j] != lower@,
        decreases names.len() - i,
    {
        if names[i] == *lower {
            assert(all[i as int] == lower@);
            return true;
        }
        assert(all[i as int] == names@[i as int]@);
        i = i + 1;
    }
    false
}

/// Whether a process of the given name is a target: its name in lower case is
/// that of a target program. In a name of ASCII characters the case of the
/// letters does not matter.
pub fn is_target(name: &str) -> (b: bool)
    ensures
        b == targets().contains(lowercase(name@)),
        vstd::utf8::is_ascii_chars(name@) ==> b == targets().contains(ascii_lowercase(name@)),
{
    names_target(&to_lowercase(name))
}

/// The process at a position of a list of names is a target.
pub open spec fn is_target_at(names: Seq<String>, i: int) -> bool {
    0 <= i < names.len() && targets().contains(lowercase(names[i]@))
}

/// Picks the processes that are killed, by their positions in the list of the
/// running ones: every target, once, in the order of the list. In a name of
/// ASCII characters the case of the letters does not matter.
pub fn terminate_old_processes(names: &Vec<String>) -> (doomed: Vec<usize>)
    ensures
        forall|i: int|
            #![trigger is_target_at(names@, i)]
            is_target_at(names@, i) <==> exists|k: int|
                0 <= k < doomed@.len() && #[trigger] doomed@[k] == i,
        forall|i: int|
            #![trigger is_target_at(names@, i)]
            #![trigger names@[i]]
            0 <= i < names@.len() && vstd::utf8::is_ascii_chars(names@[i]@) ==> (is_target_at(
                names@,
                i,
            ) <==> targets().contains(ascii_lowercase(names@[i]@))),
        forall|j: int, k: int| 0 <= j < k < doomed@.len() ==> doomed@[j] < doomed@[k],
{
    let mut doomed: Vec<usize> = Vec::new();
    let mut i: usize = 0;
    while i < names.len()
        invariant
            i <= names.len(),
            forall|j: int|
                #![trigger is_target_at(names@, j)]
                j < i ==> (is_target_at(names@, j) <==> exists|k: int|
                    0 <= k < doomed@.len() && #[trigger] doomed@[k] == j),
            forall|j: int|
                #![trigger is_target_at(names@, j)]
                0 <= j < i && vstd::utf8::is_ascii_chars(names@[j]@) ==> (is_target_at(names@, j)
                    <==> targets().contains(ascii_lowercase(names@[j]@))),
            forall|k: int| 0 <= k < doomed@.len() ==> doomed@[k] < i,
            forall|j: int, k: int| 0 <= j < k < doomed@.len() ==> doomed@[j] < doomed@[k],
        decreases names.len() - i,
    {
        let ghost before = doomed@;
        if is_target(names[i].as_str()) {
            doomed.push(i);
            assert(doomed@[before.len() as int] == i);
        }
        assert forall|j: int| #![trigger is_target_at(names@, j)] j < i + 1 implies (is_target_at(
            names@,
            j,
        ) <==> exists|k: int| 0 <= k < doomed@.len() && #[trigger] doomed@[k] == j) by {
            if j < i && is_target_at(names@, j) {
                let k = choose|k: int| 0 <= k < before.len() && #[trigger] before[k] == j;
                assert(doomed@[k] == j);
            }
            if exists|k: int| 0 <= k < doomed@.len() && #[trigger] doomed@[k] == j {
                let k = choose|k: int| 0 <= k < doomed@.len() && #[trigger] doomed@[k] == j;
                if j < i {
                    assert(before[k] == j);
                }
            }
        }
        i = i + 1;
    }
    doomed
}

/// How many of the attempts to kill a process succeeded.
pub fn count_killed(killed: &Vec<bool>) -> (n: usize)
    ensures
        n == killed@.filter(|k: bool| k).len(),
{
    let mut n: usize = 0;
    let mut i: usize = 0;
    assert(killed@.take(0).filter(|k: bool| k) =~= Seq::empty()) by {
        reveal(Seq::filter);
    }
    while i < killed.len()
        invariant
            i <= killed.len(),
            n <= i,
            n == killed@.take(i as int).filter(|k: bool| k).len(),
        decreases killed.len() - i,
    {
        proof {
            reveal(Seq::filter);
            assert(killed@.take(i + 1).drop_last() =~= killed@.take(i as int));
        }
        if killed[i] {
            n = n + 1;
        }
        i = i + 1;
    }
    assert(killed@.take(i as int) =~= killed@);
    n
}

/// A program to start: its file name and the directory that holds it.
pub struct Launch {
    pub dir: String,
    pub program: String,
}

/// What is started: every target program, in order, from the given directory.
pub fn spawn_all_processes(dir: &str) -> (launches: Vec<Launch>)
    ensures
        launches@.map_values(|l: Launch| l.program@) == targets(),
        forall|i: int| 0 <= i < launches@.len() ==> (#[trigger] launches@[i]).dir@ == dir@,
{
    let names = target_processes();
    let ghost all = names@.map_values(|s: String| s@);
    let mut launches: Vec<Launch> = Vec::new();
    let mut i: usize = 0;
    while i < names.len()
        invariant
            i <= names.len(),
            all == names@.map_values(|s: String| s@),
            launches@.len() == i,
            forall|j: int| 0 <= j < i ==> (#[trigger] launches@[j]).program@ == all[j],
            forall|j: int| 0 <= j < i ==> (#[trigger] launches@[j]).dir@ == dir@,
        decreases names.len() - i,
    {
        launches.push(Launch { dir: dir.to_owned(), program: names[i].clone() });
        i = i + 1;
    }
    assert(launches@.map_values(|l: Launch| l.program@) =~= targets());
    launches
}

/// The names of the target programs are in lower case: a program that is
/// started is one that is killed.
pub proof fn law_launched_is_target(i: int)
    requires
        0 <= i < targets().len(),
    ensures
        vstd::utf8::is_ascii_chars(targets()[i]),
        ascii_lowercase(targets()[i]) == targets()[i],
        targets().contains(ascii_lowercase(targets()[i])),
{
    reveal_strlit("client32.exe");
    reveal_strlit("runplugin.exe");
    reveal_strlit("runplugin64.exe");
    assert(ascii_lowercase(targets()[i]) =~= targets()[i]);
}

/// There are three target programs, in this order.
pub proof fn law_targets(name: Seq<char>)
    ensures
        targets().contains(name) <==> name == "client32.exe"@ || name == "runplugin.exe"@ || name
            == "runplugin64.exe"@,
        targets() == seq!["client32.exe"@, "runplugin.exe"@, "runplugin64.exe"@],
{
    assert(targets()[0] == "client32.exe"@);
    assert(targets()[1] == "runplugin.exe"@);
    assert(targets()[2] == "runplugin64.exe"@);
}

/// A process is a target wherever it stands in the list, and for its name alone:
/// in lower case it is that of a target program.
pub proof fn law_name_alone_decides(names: Seq<String>, i: int)
    requires
        0 <= i < names.len(),
    ensures
        is_target_at(names, i) <==> {
            let lower = lowercase(names[i]@);
            lower == "client32.exe"@ || lower == "runplugin.exe"@ || lower == "runplugin64.exe"@
        },
{
    law_targets(lowercase(names[i]@));
}

/// In lower case the letters from A to Z become those from a to z at the same
/// place in the alphabet; everything else stays.
pub proof fn law_ascii_lower_case(text: Seq<char>, i: int)
    requires
        0 <= i < text.len(),
    ensures
        ascii_lowercase(text).len() == text.len(),
        'A' <= text[i] <= 'Z' ==> ascii_lowercase(text)[i] as int - 'a' as int == text[i] as int
            - 'A' as int,
        !('A' <= text[i] <= 'Z') ==> ascii_lowercase(text)[i] == text[i],
{
}

} // verus!

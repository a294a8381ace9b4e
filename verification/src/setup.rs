//! The text of a per-user install: the command lines registered with Windows, the clean-up
//! command that removes the program's folders, and the installer's question.

use vstd::prelude::*;

verus! {

/// The app's name, used for its folders, registry entries and window titles.
pub const APP_NAME: &'static str = "Orbom";

/// `path` in double quotes, as a command line needs a path with spaces.
pub open spec fn quoted_spec(path: Seq<char>) -> Seq<char> {
    seq!['"'] + path + seq!['"']
}

/// `path` in double quotes.
pub fn quoted(path: &str) -> (r: String)
    ensures
        r@ == quoted_spec(path@),
{
    let mut r = String::from_str("\"");
    r.append(path);
    r.append("\"");
    proof {
        reveal_strlit("\"");
    }
    r
}

/// The sign-in command: the quoted program with `--background`, so it starts in the tray.
pub fn startup_command(exe: &str) -> (r: String)
    ensures
        r@ == quoted_spec(exe@) + " --background"@,
{
    let mut r = quoted(exe);
    r.append(" --background");
    r
}

/// The command Windows' installed apps list runs to remove the app.
pub fn uninstall_command(exe: &str) -> (r: String)
    ensures
        r@ == quoted_spec(exe@) + " --uninstall"@,
{
    let mut r = quoted(exe);
    r.append(" --uninstall");
    r
}

/// The same command without questions.
pub fn quiet_uninstall_command(exe: &str) -> (r: String)
    ensures
        r@ == quoted_spec(exe@) + " --uninstall"@ + " --quiet"@,
{
    let mut r = uninstall_command(exe);
    r.append(" --quiet");
    r
}

/// `rmdir` commands for each folder, joined by ` & `.
pub open spec fn removals(folders: Seq<Seq<char>>) -> Seq<char>
    decreases folders.len(),
{
    if folders.len() == 0 {
        Seq::empty()
    } else if folders.len() == 1 {
        "rmdir /s /q "@ + quoted_spec(folders[0])
    } else {
        removals(folders.drop_last()) + " & "@ + "rmdir /s /q "@ + quoted_spec(folders.last())
    }
}

/// The arguments of the `cmd.exe` helper that deletes `folders` once the app has exited: it
/// waits about two seconds (three pings) and then removes each folder with everything in it.
pub fn cleanup_command(folders: &Vec<String>) -> (r: String)
    ensures
        r@ == "/d /c ping -n 3 127.0.0.1 >nul & "@ + removals(folders@.map_values(|f: String| f@)),
{
    let ghost names = folders@.map_values(|f: String| f@);
    let mut r = String::from_str("/d /c ping -n 3 127.0.0.1 >nul & ");
    let mut i: usize = 0;
    while i < folders.len()
        invariant
            i <= folders.len(),
            names == folders@.map_values(|f: String| f@),
            r@ == "/d /c ping -n 3 127.0.0.1 >nul & "@ + removals(names.take(i as int)),
        decreases folders.len() - i,
    {
        let ghost before = r@;
        if i > 0 {
            r.append(" & ");
        }
        r.append("rmdir /s /q ");
        let q = quoted(folders[i].as_str());
        r.append(q.as_str());
        proof {
            let next = names.take(i + 1);
            assert(next.drop_last() =~= names.take(i as int));
            assert(next.last() == folders@[i as int]@);
            if i > 0 {
                assert(r@ =~= before + " & "@ + "rmdir /s /q "@ + quoted_spec(next.last()));
            } else {
                assert(names.take(0) =~= Seq::<Seq<char>>::empty());
                assert(r@ =~= before + "rmdir /s /q "@ + quoted_spec(next.last()));
            }
        }
        i += 1;
    }
    assert(names.take(folders.len() as int) =~= names);
    r
}

/// The installer's size estimate for Windows' app list: whole KiB of the program, kept in 32 bits.
pub fn estimated_size(len: usize) -> (r: u32)
    ensures
        r == (len as int / 1024) % 0x1_0000_0000,
{
    let k = (len / 1024) as u64;
    (k % 0x1_0000_0000) as u32
}

/// The installer's question: update an existing install, or install afresh with a list of what
/// that does; both name the install folder `location`.
pub open spec fn prompt_spec(english: bool, installed: bool, location: Seq<char>) -> Seq<char> {
    if installed {
        (if english {
            "Orbom is already installed. Update it to this version?"@
        } else {
            "Orbom이 이미 설치되어 있습니다. 이 버전으로 업데이트할까요?"@
        }) + "\n\n"@ + location
    } else {
        (if english {
            "Install Orbom?"@
        } else {
            "Orbom을 설치할까요?"@
        }) + "\n\n"@ + location + "\n\n"@ + (if english {
            "• Adds a Start menu shortcut\n• Starts with Windows (you can turn this off from the tray menu)\n• Uninstall any time from Settings > Apps > Installed apps"@
        } else {
            "• 시작 메뉴에 바로가기를 추가합니다\n• Windows 시작 시 자동으로 실행합니다 (트레이 메뉴에서 끌 수 있어요)\n• 제거는 Windows 설정 > 앱 > 설치된 앱에서 할 수 있습니다"@
        })
    }
}

/// The question the installer asks before installing into `location`.
pub fn install_prompt(english: bool, installed: bool, location: &str) -> (r: String)
    ensures
        r@ == prompt_spec(english, installed, location@),
{
    if installed {
        let mut r = String::from_str(
            crate::i18n::t(
                english,
                "Orbom이 이미 설치되어 있습니다. 이 버전으로 업데이트할까요?",
                "Orbom is already installed. Update it to this version?",
            ),
        );
        r.append("\n\n");
        r.append(location);
        r
    } else {
        let mut r = String::from_str(crate::i18n::t(english, "Orbom을 설치할까요?", "Install Orbom?"));
        r.append("\n\n");
        r.append(location);
        r.append("\n\n");
        r.append(
            crate::i18n::t(
                english,
                "• 시작 메뉴에 바로가기를 추가합니다\n• Windows 시작 시 자동으로 실행합니다 (트레이 메뉴에서 끌 수 있어요)\n• 제거는 Windows 설정 > 앱 > 설치된 앱에서 할 수 있습니다",
                "• Adds a Start menu shortcut\n• Starts with Windows (you can turn this off from the tray menu)\n• Uninstall any time from Settings > Apps > Installed apps",
            ),
        );
        r
    }
}

} // verus!

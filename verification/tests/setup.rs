use orbom::setup::{
    cleanup_command, estimated_size, install_prompt, quiet_uninstall_command, quoted,
    startup_command, uninstall_command,
};
use orbom::text::wide_within;

#[test]
fn registered_commands_quote_the_program() {
    let exe = r"C:\Users\A B\AppData\Local\Programs\Orbom\Orbom.exe";
    assert_eq!(quoted(exe), format!("\"{exe}\""));
    assert_eq!(startup_command(exe), format!("\"{exe}\" --background"));
    assert_eq!(uninstall_command(exe), format!("\"{exe}\" --uninstall"));
    assert_eq!(quiet_uninstall_command(exe), format!("\"{exe}\" --uninstall --quiet"));
}

#[test]
fn cleanup_waits_then_removes_every_folder() {
    let folders = vec![r"C:\P\Orbom".to_string(), r"C:\D\Orbom".to_string()];
    assert_eq!(
        cleanup_command(&folders),
        "/d /c ping -n 3 127.0.0.1 >nul & rmdir /s /q \"C:\\P\\Orbom\" & rmdir /s /q \"C:\\D\\Orbom\""
    );
    assert_eq!(cleanup_command(&vec![]), "/d /c ping -n 3 127.0.0.1 >nul & ");
}

#[test]
fn size_estimate_is_in_whole_kib() {
    assert_eq!(estimated_size(0), 0);
    assert_eq!(estimated_size(1023), 0);
    assert_eq!(estimated_size(10 * 1024 + 5), 10);
}

#[test]
fn installer_asks_to_install_or_update() {
    assert_eq!(
        install_prompt(true, true, r"C:\X"),
        "Orbom is already installed. Update it to this version?\n\nC:\\X"
    );
    let fresh = install_prompt(true, false, r"C:\X");
    assert!(fresh.starts_with("Install Orbom?\n\nC:\\X\n\n• Adds a Start menu shortcut"));
    assert!(install_prompt(false, false, "D").starts_with("Orbom을 설치할까요?\n\nD\n\n"));
}

#[test]
fn tray_tip_is_cut_to_its_buffer() {
    assert_eq!(wide_within("abc", 128), vec![97, 98, 99, 0]);
    assert_eq!(wide_within("abc", 3), vec![97, 98, 0]);
    assert_eq!(wide_within("abc", 1), vec![0]);
    assert_eq!(wide_within("검색", 128), vec![0xAC80, 0xC0C9, 0]);
}

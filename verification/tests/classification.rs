use debforge::forge::deb_files::{classify, FileType};

#[test]
fn reserved_names_have_their_roles() {
    assert_eq!(classify("control"), Some(FileType::Control));
    assert_eq!(classify("changelog"), Some(FileType::Changelog));
    assert_eq!(classify("copyright"), Some(FileType::Copyright));
    assert_eq!(classify("install"), Some(FileType::Install));
    assert_eq!(classify("preinst"), Some(FileType::PreInst));
    assert_eq!(classify("postinst"), Some(FileType::PostInst));
    assert_eq!(classify("prerm"), Some(FileType::PreRm));
    assert_eq!(classify("postrm"), Some(FileType::PostRm));
    assert_eq!(classify("conffiles"), Some(FileType::ConfFiles));
    assert_eq!(classify("watch"), Some(FileType::Watch));
    assert_eq!(classify("format"), Some(FileType::Format));
    assert_eq!(classify("dirs"), Some(FileType::Dirs));
    assert_eq!(classify("docs"), Some(FileType::Docs));
    assert_eq!(classify("desktop"), Some(FileType::Desktop));
    assert_eq!(classify("menu"), Some(FileType::Menu));
    assert_eq!(classify("manpages"), Some(FileType::ManPages));
}

#[test]
fn from_knows_the_reserved_names_only() {
    assert_eq!(FileType::from("control"), Some(FileType::Control));
    assert_eq!(FileType::from("manpages"), Some(FileType::ManPages));
    assert_eq!(FileType::from("Control"), None);
    assert_eq!(FileType::from("binary"), None);
    assert_eq!(FileType::from("control.txt"), None);
    assert_eq!(FileType::from(""), None);
}

#[test]
fn unknown_names_have_no_role() {
    assert_eq!(classify(""), None);
    assert_eq!(classify("README"), None);
    assert_eq!(classify("Control"), None);
    assert_eq!(classify("controls"), None);
    assert_eq!(classify("binary"), None);
}

#[test]
fn unrecognized_extensions_have_no_role() {
    assert_eq!(classify("control.txt"), None);
    assert_eq!(classify("changelog.md"), None);
    assert_eq!(classify("Cargo.toml"), None);
    assert_eq!(classify("icon-128.bmp"), None);
    assert_eq!(classify("icon-128.PNG"), None);
    assert_eq!(classify("control."), None);
    assert_eq!(classify("app.desktop.bak"), None);
}

#[test]
fn desktop_entries_go_by_their_extension() {
    assert_eq!(classify("app.desktop"), Some(FileType::Desktop));
    assert_eq!(classify(".desktop"), Some(FileType::Desktop));
    assert_eq!(classify("my.app.desktop"), Some(FileType::Desktop));
    assert_eq!(classify("icon-64.desktop"), Some(FileType::Desktop));
}

#[test]
fn icons_go_by_the_width_in_their_name() {
    assert_eq!(classify("icon-64.png"), Some(FileType::Icon64));
    assert_eq!(classify("icon-128.png"), Some(FileType::Icon128));
    assert_eq!(classify("icon128.png"), Some(FileType::Icon128));
    assert_eq!(classify("256x256.jpg"), Some(FileType::Icon256));
    assert_eq!(classify("logo_512.jpeg"), Some(FileType::Icon512));
    assert_eq!(classify("512.tiff"), Some(FileType::Icon512));
    assert_eq!(classify("app-256.svg"), Some(FileType::Icon256));
}

#[test]
fn icons_without_a_width_have_no_role() {
    assert_eq!(classify("icon.png"), None);
    assert_eq!(classify("logo-32.png"), None);
    assert_eq!(classify(".svg"), None);
    assert_eq!(classify("12.8.png"), None);
}

#[test]
fn icons_with_several_widths_take_the_first_in_order() {
    assert_eq!(classify("icon64128.png"), Some(FileType::Icon64));
    assert_eq!(classify("icon-512-64.png"), Some(FileType::Icon64));
    assert_eq!(classify("icon-512-128.png"), Some(FileType::Icon128));
    assert_eq!(classify("256-512.svg"), Some(FileType::Icon256));
    assert_eq!(classify("1648.png"), Some(FileType::Icon64));
}

#[test]
fn the_extension_follows_the_last_dot() {
    assert_eq!(classify("icon.png.txt"), None);
    assert_eq!(classify("icon.txt.png"), None);
    assert_eq!(classify("icon.64.png"), Some(FileType::Icon64));
    assert_eq!(classify("archive.tar.desktop"), Some(FileType::Desktop));
}

#[test]
fn text_roles_and_copied_roles() {
    assert!(FileType::Control.is_text());
    assert!(FileType::Changelog.is_text());
    assert!(FileType::Desktop.is_text());
    assert!(FileType::ManPages.is_text());
    assert!(!FileType::Binary.is_text());
    assert!(!FileType::Icon64.is_text());
    assert!(!FileType::Icon128.is_text());
    assert!(!FileType::Icon256.is_text());
    assert!(!FileType::Icon512.is_text());
}

#[test]
fn widths_and_resolutions() {
    assert_eq!(FileType::Icon64.width(), "64");
    assert_eq!(FileType::Icon128.width(), "128");
    assert_eq!(FileType::Icon256.width(), "256");
    assert_eq!(FileType::Icon512.width(), "512");
    assert_eq!(FileType::Icon64.resolution(), "64x64");
    assert_eq!(FileType::Icon128.resolution(), "128x128");
    assert_eq!(FileType::Icon256.resolution(), "256x256");
    assert_eq!(FileType::Icon512.resolution(), "512x512");
}

#[test]
fn output_file_names() {
    assert_eq!(FileType::Control.output_file_name("my-app"), "control");
    assert_eq!(FileType::Changelog.output_file_name("my-app"), "changelog");
    assert_eq!(FileType::Copyright.output_file_name("my-app"), "copyright");
    assert_eq!(FileType::Binary.output_file_name("my-app"), "my-app");
    assert_eq!(FileType::Icon64.output_file_name("my-app"), "my-app.png");
    assert_eq!(FileType::Icon512.output_file_name("my-app"), "my-app.png");
    assert_eq!(FileType::Desktop.output_file_name("my-app"), "my-app.desktop");
    assert_eq!(FileType::Install.output_file_name("my-app"), "install");
    assert_eq!(FileType::PreInst.output_file_name("my-app"), "preinst");
    assert_eq!(FileType::PostInst.output_file_name("my-app"), "postinst");
    assert_eq!(FileType::PreRm.output_file_name("my-app"), "prerm");
    assert_eq!(FileType::PostRm.output_file_name("my-app"), "postrm");
    assert_eq!(FileType::ConfFiles.output_file_name("my-app"), "conffiles");
    assert_eq!(FileType::Watch.output_file_name("my-app"), "watch");
    assert_eq!(FileType::Format.output_file_name("my-app"), "format");
    assert_eq!(FileType::Dirs.output_file_name("my-app"), "dirs");
    assert_eq!(FileType::Docs.output_file_name("my-app"), "docs");
    assert_eq!(FileType::Menu.output_file_name("my-app"), "menu");
    assert_eq!(FileType::ManPages.output_file_name("my-app"), "manpages");
}

#[test]
fn role_names_in_messages() {
    assert_eq!(FileType::Control.name(), "Control");
    assert_eq!(FileType::Icon128.name(), "Icon128");
    assert_eq!(FileType::PreInst.name(), "PreInst");
    assert_eq!(FileType::ConfFiles.name(), "ConfFiles");
    assert_eq!(FileType::ManPages.name(), "ManPages");
    assert_eq!(FileType::Binary.name(), "Binary");
}

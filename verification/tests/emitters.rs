use std::collections::BTreeMap;

use file_emitter::config::{Config, EmitMode, FileName};
use file_emitter::disk::FsStep;
use file_emitter::emitter::files_with_backup::{replace_with_backup, FilesWithBackupEmitter};
use file_emitter::emitter::{
    ensure_real_path, CheckstyleEmitter, DiffEmitter, Emission, Emitter, FilesEmitter,
    FormattedFile, ModifiedLinesEmitter, Presentation, StdoutEmitter,
};

const ORIGINAL: &str = "fn f(){}";
const FORMATTED: &str = "fn f() {}\n";

type Disk = BTreeMap<String, String>;

fn apply(disk: &mut Disk, step: &FsStep) -> Result<(), String> {
    match step {
        FsStep::Write { path, contents } => {
            disk.insert(path.clone(), contents.clone());
            Ok(())
        }
        FsStep::Rename { from, to } => match disk.remove(from) {
            Some(contents) => {
                disk.insert(to.clone(), contents);
                Ok(())
            }
            None => Err(format!("no such file: {}", from)),
        },
    }
}

fn run(disk: &mut Disk, steps: &[FsStep]) -> Result<(), String> {
    for step in steps {
        apply(disk, step)?;
    }
    Ok(())
}

fn disk_with(path: &str, contents: &str) -> Disk {
    let mut disk = Disk::new();
    disk.insert(path.to_string(), contents.to_string());
    disk
}

fn steps_of(emission: Emission) -> Vec<FsStep> {
    match emission {
        Emission::Files { steps, needs_followup } => {
            assert!(!needs_followup);
            steps
        }
        Emission::Sink { .. } => panic!("expected steps for the file system"),
    }
}

fn write(path: &str, contents: &str) -> FsStep {
    FsStep::Write { path: path.to_string(), contents: contents.to_string() }
}

fn rename(from: &str, to: &str) -> FsStep {
    FsStep::Rename { from: from.to_string(), to: to.to_string() }
}

#[test]
fn backup_writer_replaces_file_and_keeps_backup() {
    let filename = FileName::Real("src/lib.rs".to_string());
    let file = FormattedFile {
        original_text: ORIGINAL,
        formatted_text: FORMATTED,
        filename: &filename,
    };
    let steps = steps_of(FilesWithBackupEmitter::new().write_file(file));
    assert_eq!(
        steps,
        vec![
            write("src/lib.tmp", FORMATTED),
            rename("src/lib.rs", "src/lib.bk"),
            rename("src/lib.tmp", "src/lib.rs"),
        ]
    );

    let mut disk = disk_with("src/lib.rs", ORIGINAL);
    assert_eq!(run(&mut disk, &steps), Ok(()));
    assert_eq!(disk.get("src/lib.rs").map(String::as_str), Some(FORMATTED));
    assert_eq!(disk.get("src/lib.bk").map(String::as_str), Some(ORIGINAL));
    assert!(!disk.contains_key("src/lib.tmp"));
    assert_eq!(disk.len(), 2);
}

#[test]
fn plain_writer_overwrites_without_artifacts() {
    let filename = FileName::Real("src/lib.rs".to_string());
    let file = FormattedFile {
        original_text: ORIGINAL,
        formatted_text: FORMATTED,
        filename: &filename,
    };
    let steps = steps_of(FilesEmitter::new().write_file(file));
    assert_eq!(steps, vec![write("src/lib.rs", FORMATTED)]);

    let mut disk = disk_with("src/lib.rs", ORIGINAL);
    assert_eq!(run(&mut disk, &steps), Ok(()));
    assert_eq!(disk, disk_with("src/lib.rs", FORMATTED));
}

#[test]
fn backup_writer_leaves_unchanged_file_alone() {
    let filename = FileName::Real("src/lib.rs".to_string());
    let file = FormattedFile {
        original_text: FORMATTED,
        formatted_text: FORMATTED,
        filename: &filename,
    };
    let steps = steps_of(FilesWithBackupEmitter::new().write_file(file));
    assert_eq!(steps, Vec::<FsStep>::new());

    let mut disk = disk_with("src/lib.rs", FORMATTED);
    assert_eq!(run(&mut disk, &steps), Ok(()));
    assert_eq!(disk, disk_with("src/lib.rs", FORMATTED));
    assert!(!disk.contains_key("src/lib.bk"));
}

#[test]
fn plain_writer_leaves_unchanged_file_alone() {
    let filename = FileName::Real("src/lib.rs".to_string());
    let file = FormattedFile {
        original_text: ORIGINAL,
        formatted_text: ORIGINAL,
        filename: &filename,
    };
    let steps = steps_of(FilesEmitter::new().write_file(file));
    assert_eq!(steps, Vec::<FsStep>::new());
}

#[test]
fn no_emitter_touches_the_disk_for_unchanged_text() {
    let filename = FileName::Real("a.rs".to_string());
    let config = Config::new(EmitMode::Diff, false, false);
    let emitters = [
        Emitter::FilesWithBackup(FilesWithBackupEmitter::new()),
        Emitter::Files(FilesEmitter::new()),
        Emitter::Stdout(StdoutEmitter::new(true)),
        Emitter::ModifiedLines(ModifiedLinesEmitter::new()),
        Emitter::Checkstyle(CheckstyleEmitter::new()),
        Emitter::Diff(DiffEmitter::new(&config)),
    ];
    for mut emitter in emitters {
        let file = FormattedFile {
            original_text: "same",
            formatted_text: "same",
            filename: &filename,
        };
        match emitter.write_file(file) {
            Emission::Files { steps, needs_followup } => {
                assert!(steps.is_empty());
                assert!(!needs_followup);
            }
            Emission::Sink { changed, .. } => assert!(!changed),
        }
    }
}

#[test]
fn backup_survives_a_failure_after_any_step() {
    let filename = FileName::Real("dir/main.rs".to_string());
    let file = FormattedFile {
        original_text: ORIGINAL,
        formatted_text: FORMATTED,
        filename: &filename,
    };
    let steps = steps_of(FilesWithBackupEmitter::new().write_file(file));
    assert_eq!(steps.len(), 3);
    for done in 0..=steps.len() {
        let mut disk = disk_with("dir/main.rs", ORIGINAL);
        assert_eq!(run(&mut disk, &steps[..done]), Ok(()));
        let in_place = disk.get("dir/main.rs").map(String::as_str) == Some(ORIGINAL);
        let backed_up = disk.get("dir/main.bk").map(String::as_str) == Some(ORIGINAL);
        assert!(in_place || backed_up, "original lost after {} steps", done);
    }
    let mut disk = disk_with("dir/main.rs", ORIGINAL);
    assert_eq!(run(&mut disk, &steps[..1]), Ok(()));
    assert_eq!(disk.get("dir/main.rs").map(String::as_str), Some(ORIGINAL));
    assert_eq!(disk.get("dir/main.tmp").map(String::as_str), Some(FORMATTED));
    assert_eq!(run(&mut disk, &steps[1..2]), Ok(()));
    assert!(!disk.contains_key("dir/main.rs"));
    assert_eq!(disk.get("dir/main.bk").map(String::as_str), Some(ORIGINAL));
    assert_eq!(disk.get("dir/main.tmp").map(String::as_str), Some(FORMATTED));
}

#[test]
fn backup_fails_at_the_rename_when_the_file_is_gone() {
    let filename = FileName::Real("gone.rs".to_string());
    let file = FormattedFile {
        original_text: ORIGINAL,
        formatted_text: FORMATTED,
        filename: &filename,
    };
    let steps = steps_of(FilesWithBackupEmitter::new().write_file(file));
    let mut disk = Disk::new();
    assert_eq!(run(&mut disk, &steps), Err("no such file: gone.rs".to_string()));
    assert_eq!(disk, disk_with("gone.tmp", FORMATTED));
}

#[test]
fn siblings_replace_the_last_extension() {
    let filename = FileName::Real("archive.tar.gz".to_string());
    let file = FormattedFile { original_text: "a", formatted_text: "b", filename: &filename };
    let steps = steps_of(FilesWithBackupEmitter::new().write_file(file));
    assert_eq!(
        steps,
        vec![
            write("archive.tar.tmp", "b"),
            rename("archive.tar.gz", "archive.tar.bk"),
            rename("archive.tar.tmp", "archive.tar.gz"),
        ]
    );
}

#[test]
fn siblings_of_a_file_without_extension() {
    let filename = FileName::Real("/work/Makefile".to_string());
    let file = FormattedFile { original_text: "a", formatted_text: "b", filename: &filename };
    let steps = steps_of(FilesWithBackupEmitter::new().write_file(file));
    assert_eq!(
        steps,
        vec![
            write("/work/Makefile.tmp", "b"),
            rename("/work/Makefile", "/work/Makefile.bk"),
            rename("/work/Makefile.tmp", "/work/Makefile"),
        ]
    );
}

#[test]
fn file_named_like_its_temporary_sibling_collides() {
    let filename = FileName::Real("notes.tmp".to_string());
    let file = FormattedFile { original_text: "old", formatted_text: "new", filename: &filename };
    let steps = steps_of(FilesWithBackupEmitter::new().write_file(file));
    assert_eq!(
        steps,
        vec![
            write("notes.tmp", "new"),
            rename("notes.tmp", "notes.bk"),
            rename("notes.tmp", "notes.tmp"),
        ]
    );
    let mut disk = disk_with("notes.tmp", "old");
    assert_eq!(run(&mut disk, &steps), Err("no such file: notes.tmp".to_string()));
}

#[test]
fn file_named_like_its_backup_collides() {
    let filename = FileName::Real("notes.bk".to_string());
    let file = FormattedFile { original_text: "old", formatted_text: "new", filename: &filename };
    let steps = steps_of(FilesWithBackupEmitter::new().write_file(file));
    assert_eq!(
        steps,
        vec![
            write("notes.tmp", "new"),
            rename("notes.bk", "notes.bk"),
            rename("notes.tmp", "notes.bk"),
        ]
    );
    let mut disk = disk_with("notes.bk", "old");
    assert_eq!(run(&mut disk, &steps), Ok(()));
    assert_eq!(disk, disk_with("notes.bk", "new"));
}

#[test]
fn replacement_protocol_uses_the_names_it_is_given() {
    let steps = replace_with_backup("a.rs", "a.swap".to_string(), "a.orig".to_string(), "text");
    assert_eq!(
        steps,
        vec![write("a.swap", "text"), rename("a.rs", "a.orig"), rename("a.swap", "a.rs")]
    );
}

#[test]
fn stdout_emitter_passes_verbosity_through() {
    let filename = FileName::Stdin;
    let file = FormattedFile {
        original_text: ORIGINAL,
        formatted_text: FORMATTED,
        filename: &filename,
    };
    assert_eq!(
        StdoutEmitter::new(true).write_file(file),
        Emission::Sink { presentation: Presentation::Text { verbose: true }, changed: true }
    );
    assert_eq!(
        StdoutEmitter::new(false).write_file(file),
        Emission::Sink { presentation: Presentation::Text { verbose: false }, changed: true }
    );
}

#[test]
fn stream_emitters_report_whether_text_changed() {
    let filename = FileName::Real("a.rs".to_string());
    let changed = FormattedFile {
        original_text: ORIGINAL,
        formatted_text: FORMATTED,
        filename: &filename,
    };
    let same = FormattedFile {
        original_text: ORIGINAL,
        formatted_text: ORIGINAL,
        filename: &filename,
    };
    let config = Config::new(EmitMode::Diff, true, true);

    assert_eq!(
        ModifiedLinesEmitter::new().write_file(changed),
        Emission::Sink { presentation: Presentation::ModifiedLines, changed: true }
    );
    assert_eq!(
        ModifiedLinesEmitter::new().write_file(same),
        Emission::Sink { presentation: Presentation::ModifiedLines, changed: false }
    );
    assert_eq!(
        CheckstyleEmitter::new().write_file(changed),
        Emission::Sink { presentation: Presentation::Checkstyle, changed: true }
    );
    assert_eq!(
        CheckstyleEmitter::new().write_file(same),
        Emission::Sink { presentation: Presentation::Checkstyle, changed: false }
    );
    assert_eq!(
        DiffEmitter::new(&config).write_file(changed),
        Emission::Sink { presentation: Presentation::Diff { config }, changed: true }
    );
    assert_eq!(
        DiffEmitter::new(&config).write_file(same),
        Emission::Sink { presentation: Presentation::Diff { config }, changed: false }
    );
}

#[test]
fn emitter_dispatches_to_its_strategy() {
    let filename = FileName::Real("a.rs".to_string());
    let file = FormattedFile { original_text: "x", formatted_text: "y", filename: &filename };

    let mut plain = Emitter::Files(FilesEmitter::new());
    assert_eq!(
        plain.write_file(file),
        Emission::Files { steps: vec![write("a.rs", "y")], needs_followup: false }
    );
    assert_eq!(plain, Emitter::Files(FilesEmitter::new()));

    let mut backed_up = Emitter::FilesWithBackup(FilesWithBackupEmitter::new());
    assert_eq!(
        backed_up.write_file(file),
        Emission::Files {
            steps: vec![write("a.tmp", "y"), rename("a.rs", "a.bk"), rename("a.tmp", "a.rs")],
            needs_followup: false,
        }
    );

    let mut stdout = Emitter::Stdout(StdoutEmitter::new(true));
    assert_eq!(
        stdout.write_file(file),
        Emission::Sink { presentation: Presentation::Text { verbose: true }, changed: true }
    );
    assert_eq!(stdout, Emitter::Stdout(StdoutEmitter { verbose: true }));
}

#[test]
fn real_path_of_a_file_name() {
    let real = FileName::Real("src/main.rs".to_string());
    assert_eq!(ensure_real_path(&real), "src/main.rs");
    assert_eq!(real.real_path(), Some("src/main.rs"));
    assert_eq!(FileName::Stdin.real_path(), None);
    assert_eq!(real.clone(), real);
    assert_eq!(FileName::Stdin.clone(), FileName::Stdin);
}

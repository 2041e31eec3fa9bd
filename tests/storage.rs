use application::cursor::Cursor;
use application::storage::engine::fs::{BaseDir, Engine as FSEngine, FSNewError};
use application::storage::engine::Engine;
use application::storage::repository::{page_of, MemoryRepository};
use application::storage::service::{
    finish_upload, locate_outcome, place_upload, update_outcome, Creator, Deleter, FileUploadError, FileUploader, Getter, Lister,
    UpdateError, Updater,
};
use application::storage::{InsertDTO, Name, Path, Repository, Settings, Storage, UpdateDTO};
use application::LIMIT;

fn fs_settings(base: &str) -> Settings {
    Settings::FS {
        base_path: base.to_string(),
    }
}

fn dto(id: u128, name: &str) -> InsertDTO {
    InsertDTO {
        id,
        name: Name::new(name).unwrap(),
        settings: fs_settings("/data/books"),
    }
}

fn collect_all(lister: &Lister<MemoryRepository>) -> (Vec<u128>, usize) {
    let mut ids = Vec::new();
    let mut pages = 0;
    let mut cursor: Option<Cursor> = None;
    loop {
        let page = lister.list(cursor).unwrap();
        pages += 1;
        assert!(page.data.len() <= LIMIT);
        ids.extend(page.data.iter().map(|s| s.id));
        match page.cursor {
            Some(c) => {
                assert_eq!(page.data.len(), LIMIT);
                assert_eq!(c.last_id, Some(page.data[LIMIT - 1].id));
                cursor = Some(c);
            }
            None => break,
        }
    }
    (ids, pages)
}

#[test]
fn pagination_visits_every_row_once_in_order() {
    let mut creator = Creator::new(MemoryRepository::new());
    let mut inserted = Vec::new();
    for i in 0..LIMIT * 2 + 3 {
        let name = Name::new(&format!("storage {i}")).unwrap();
        inserted.push(creator.create(name, fs_settings("/data")).unwrap());
    }
    let lister = Lister::new(creator.storages_repository);
    let (ids, pages) = collect_all(&lister);
    inserted.sort();
    assert_eq!(ids, inserted);
    assert_eq!(pages, 3);
}

#[test]
fn pagination_of_an_exact_multiple_ends_with_an_empty_page() {
    let mut repo = MemoryRepository::new();
    for i in 0..(LIMIT * 2) as u128 {
        repo.insert(&dto(1000 - i, "some name")).unwrap();
    }
    let lister = Lister::new(repo);
    let (ids, pages) = collect_all(&lister);
    let expected: Vec<u128> = (1000 - (LIMIT * 2) as u128 + 1..=1000).collect();
    assert_eq!(ids, expected);
    assert_eq!(pages, 3);
}

#[test]
fn list_after_a_cursor_starts_strictly_after_it() {
    let mut repo = MemoryRepository::new();
    for id in [5u128, 10, 15] {
        repo.insert(&dto(id, "abc")).unwrap();
    }
    let page = repo.list(Some(10)).unwrap();
    assert_eq!(page.data.iter().map(|s| s.id).collect::<Vec<_>>(), vec![15]);
    assert!(page.cursor.is_none());
    let page = repo.list(Some(7)).unwrap();
    assert_eq!(page.data.iter().map(|s| s.id).collect::<Vec<_>>(), vec![10, 15]);
    let page = repo.list(None).unwrap();
    assert_eq!(page.data.len(), 3);
    assert!(repo.list(Some(15)).unwrap().data.is_empty());
}

#[test]
fn duplicate_id_is_refused() {
    let mut repo = MemoryRepository::new();
    repo.insert(&dto(1, "first")).unwrap();
    assert!(repo.insert(&dto(1, "second")).is_err());
    assert_eq!(repo.get(1).unwrap().unwrap().name.as_str(), "first");
}

#[test]
fn delete_twice_succeeds_and_ends_the_same() {
    let mut deleter = Deleter::new(MemoryRepository::new());
    deleter.storages_repository.insert(&dto(1, "one")).unwrap();
    deleter.storages_repository.insert(&dto(2, "two")).unwrap();
    assert!(deleter.delete(1).is_ok());
    assert!(deleter.delete(1).is_ok());
    let getter = Getter::new(deleter.storages_repository);
    assert!(getter.get(1).unwrap().is_none());
    assert_eq!(getter.get(2).unwrap().unwrap().id, 2);
}

#[test]
fn update_replaces_wholesale() {
    let mut creator = Creator::new(MemoryRepository::new());
    let id = creator
        .create(Name::new("old name").unwrap(), fs_settings("/old"))
        .unwrap();
    let mut updater = Updater::new(creator.storages_repository);
    let s = updater
        .update(id, Name::new("new name").unwrap(), fs_settings("/new"))
        .unwrap();
    assert_eq!(s.id, id);
    let getter = Getter::new(updater.storages_repository);
    let got = getter.get(id).unwrap().unwrap();
    assert_eq!(got.id, id);
    assert_eq!(got.name.as_str(), "new name");
    assert_eq!(got.settings, fs_settings("/new"));
}

#[test]
fn update_of_nothing_is_not_found() {
    let mut updater = Updater::new(MemoryRepository::new());
    let r = updater.update(9, Name::new("whatever").unwrap(), fs_settings("/x"));
    assert_eq!(r.err(), Some(UpdateError::NotFound));
    assert_eq!(UpdateError::NotFound.to_string(), "not found");
    assert_eq!(
        UpdateError::DB("boom".to_string()).to_string(),
        "repository error: boom"
    );
}

#[test]
fn repository_update_returns_the_new_row() {
    let mut repo = MemoryRepository::new();
    repo.insert(&dto(3, "three")).unwrap();
    let new = UpdateDTO {
        name: Name::new("drei").unwrap(),
        settings: fs_settings("/drei"),
    };
    let s = repo.update(3, &new).unwrap().unwrap();
    assert_eq!(s.name.as_str(), "drei");
    assert!(repo.update(4, &new).unwrap().is_none());
}

#[test]
fn upload_to_missing_storage_fails() {
    let uploader = FileUploader::new(Getter::new(MemoryRepository::new()));
    assert_eq!(uploader.locate(42).err(), Some(FileUploadError::StorageNotFound));
}

#[test]
fn upload_places_the_file_under_the_base_path() {
    let mut creator = Creator::new(MemoryRepository::new());
    let id = creator
        .create(Name::new("books").unwrap(), fs_settings("/data/books"))
        .unwrap();
    let uploader = FileUploader::new(Getter::new(creator.storages_repository));
    let storage = uploader.locate(id).unwrap();
    let path = place_upload(&storage, BaseDir::Existing, "a.txt").unwrap();
    assert_eq!(path, Path::FS("/data/books/a.txt".to_string()));
    let done = finish_upload(path, Ok(())).unwrap();
    assert_eq!(done, Path::FS("/data/books/a.txt".to_string()));
    let failed = finish_upload(
        Path::FS("/data/books/a.txt".to_string()),
        Err("disk full".to_string()),
    );
    assert_eq!(
        failed.err(),
        Some(FileUploadError::PutFileToStorage("disk full".to_string()))
    );
    let refused = place_upload(&storage, BaseDir::NotDirectory, "a.txt");
    assert_eq!(
        refused.err(),
        Some(FileUploadError::ConnectStorage(FSNewError::BasePathNotDir))
    );
}

#[test]
fn base_path_not_exists() {
    let result = FSEngine::new("not_exists_dir".to_string(), BaseDir::Created);

    assert!(result.is_ok());
    assert_eq!(result.unwrap().base_path(), "not_exists_dir");
}

#[test]
fn base_path_exists_and_it_is_a_directory() {
    let result = FSEngine::new("/tmp/al".to_string(), BaseDir::Existing);

    assert!(result.is_ok());
}

#[test]
fn base_path_exists_and_it_is_a_file() {
    let result = FSEngine::new("a_file".to_string(), BaseDir::NotDirectory);

    assert!(result.is_err());
    assert!(matches!(result.err().unwrap(), FSNewError::BasePathNotDir));
}

#[test]
fn base_dir_that_cannot_be_created() {
    let result = FSEngine::new("/proc/x".to_string(), BaseDir::CreateFailed("denied".to_string()));
    let err = result.err().unwrap();
    assert_eq!(err, FSNewError::FailedToCreateBaseDir("denied".to_string()));
    assert_eq!(err.to_string(), "failed to create directory under base path");
}

#[test]
fn success() {
    let engine = FSEngine::new("/tmp/put_success".to_string(), BaseDir::Created).unwrap();
    let actual_path = engine.put("file");
    assert_eq!(actual_path, "/tmp/put_success/file");
    let with_slash = FSEngine::new("/tmp/".to_string(), BaseDir::Existing).unwrap();
    assert_eq!(with_slash.put("file"), "/tmp/file");
    let relative = FSEngine::new(String::new(), BaseDir::Existing).unwrap();
    assert_eq!(relative.put("file"), "file");
}

#[test]
fn connect_and_put_through_the_storage() {
    let storage = Storage::new(Name::new("shelf").unwrap(), fs_settings("/srv/shelf"));
    let engine = storage.connect(BaseDir::Existing).unwrap();
    assert!(matches!(engine, Engine::FS(_)));
    assert_eq!(engine.put("b.pdf"), Path::FS("/srv/shelf/b.pdf".to_string()));
    assert!(storage.connect(BaseDir::NotDirectory).is_err());
}

#[test]
fn new_storages_get_distinct_ids() {
    let a = Storage::new(Name::new("aaa").unwrap(), fs_settings("/a"));
    let b = Storage::new(Name::new("bbb").unwrap(), fs_settings("/a"));
    assert_ne!(a.id, b.id);
}

#[test]
fn absolute_name_replaces_the_base_path() {
    let engine = FSEngine::new("/data/books".to_string(), BaseDir::Existing).unwrap();
    assert_eq!(engine.put("/etc/passwd"), "/etc/passwd");
    assert_eq!(engine.put("sub/a.txt"), "/data/books/sub/a.txt");
}

#[test]
fn stored_names_are_taken_as_they_are() {
    assert_eq!(Name::new_valid("kept".to_string()).as_str(), "kept");
}

#[test]
fn update_outcome_for_each_answer() {
    assert_eq!(update_outcome(Ok(None)).err(), Some(UpdateError::NotFound));
    assert_eq!(
        update_outcome(Err("lost connection".to_string())).err(),
        Some(UpdateError::DB("lost connection".to_string()))
    );
    let s = Storage::new(Name::new("kept").unwrap(), fs_settings("/k"));
    let id = s.id;
    assert_eq!(update_outcome(Ok(Some(s))).unwrap().id, id);
}

#[test]
fn locate_outcome_for_each_answer() {
    assert_eq!(locate_outcome(Ok(None)).err(), Some(FileUploadError::StorageNotFound));
    assert_eq!(
        locate_outcome(Err("timeout".to_string())).err(),
        Some(FileUploadError::GetStorage("timeout".to_string()))
    );
}

#[test]
fn create_with_a_taken_id_fails() {
    let mut creator = Creator::new(MemoryRepository::new());
    assert_eq!(
        creator.create_with_id(11, Name::new("first").unwrap(), fs_settings("/a")),
        Ok(11)
    );
    assert!(creator
        .create_with_id(11, Name::new("second").unwrap(), fs_settings("/b"))
        .is_err());
}

#[test]
fn page_of_sets_the_cursor_only_for_a_full_page() {
    let full: Vec<Storage> = (0..LIMIT)
        .map(|_| Storage::new(Name::new("abc").unwrap(), fs_settings("/a")))
        .collect();
    let last = full[LIMIT - 1].id;
    assert_eq!(page_of(full).cursor, Some(Cursor::new(Some(last))));
    let short = vec![Storage::new(Name::new("abc").unwrap(), fs_settings("/a"))];
    assert_eq!(page_of(short).cursor, None);
}

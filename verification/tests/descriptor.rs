use carbon::checksum::Checksum;
use carbon::descriptor::{Downloadable, IntoDownloadable, IntoVecDownloadable};

#[test]
fn new_descriptor_has_no_expectations() {
    let file = Downloadable::new("https://example.org/a.jar", "/tmp/a.jar");
    assert_eq!(file.url, "https://example.org/a.jar");
    assert_eq!(file.path, "/tmp/a.jar");
    assert_eq!(file.checksum, None);
    assert_eq!(file.size, None);
    assert_eq!(file.declared_size(), 0);
}

#[test]
fn with_size_sets_only_the_size() {
    let file = Downloadable::new("u", "p").with_size(1024);
    assert_eq!(file.size, Some(1024));
    assert_eq!(file.declared_size(), 1024);
    assert_eq!(file.url, "u");
    assert_eq!(file.path, "p");
    assert_eq!(file.checksum, None);
}

#[test]
fn with_checksum_sets_and_clears_the_checksum() {
    let file = Downloadable::new("u", "p")
        .with_size(7)
        .with_checksum(Some(Checksum::Md5("00".to_string())));
    assert_eq!(file.checksum, Some(Checksum::Md5("00".to_string())));
    assert_eq!(file.size, Some(7));
    let cleared = file.with_checksum(None);
    assert_eq!(cleared.checksum, None);
    assert_eq!(cleared.size, Some(7));
}

#[test]
fn descriptor_text_form() {
    let file = Downloadable::new("https://example.org/a.jar", "/tmp/a.jar");
    assert_eq!(file.to_string(), "https://example.org/a.jar -> /tmp/a.jar");
}

#[test]
fn descriptor_clone_is_equal() {
    let file = Downloadable::new("u", "p")
        .with_size(3)
        .with_checksum(Some(Checksum::Sha1("ab".to_string())));
    assert_eq!(file.clone(), file);
}

struct Asset {
    name: &'static str,
    size: u64,
}

impl IntoDownloadable for Asset {
    fn into_downloadable(self, base_path: &str) -> Downloadable {
        Downloadable::new(
            &format!("https://example.org/{}", self.name),
            &format!("{}/{}", base_path, self.name),
        )
        .with_size(self.size)
    }
}

struct Index(Vec<Asset>);

impl IntoVecDownloadable for Index {
    fn into_vec_downloadable(self, base_path: &str) -> Vec<Downloadable> {
        self.0
            .into_iter()
            .map(|asset| asset.into_downloadable(base_path))
            .collect()
    }
}

#[test]
fn conversion_traits_can_be_implemented() {
    let index = Index(vec![
        Asset { name: "a", size: 1 },
        Asset { name: "b", size: 2 },
    ]);
    let files = index.into_vec_downloadable("/base");
    assert_eq!(files.len(), 2);
    assert_eq!(files[0], Downloadable::new("https://example.org/a", "/base/a").with_size(1));
    assert_eq!(files[1].path, "/base/b");
}

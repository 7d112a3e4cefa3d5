use royalnet::images::{image_url, last_image_url, Animal, ImageUrlError};

#[test]
fn image_url_reads_the_address() {
    assert_eq!(image_url("https://images.dog.ceo/breeds/hound/1.jpg"), Ok("https://images.dog.ceo/breeds/hound/1.jpg".to_string()));
    assert_eq!(image_url("HTTPS://Example.ORG"), Ok("https://example.org/".to_string()));
    assert_eq!(image_url("https://example.org/a b.jpg"), Ok("https://example.org/a%20b.jpg".to_string()));
    assert_eq!(image_url("non è un url"), Err(ImageUrlError::Malformed));
    assert_eq!(image_url(""), Err(ImageUrlError::Malformed));
}

#[test]
fn last_image_url_takes_the_last_picture() {
    assert_eq!(last_image_url(vec![]), Err(ImageUrlError::Empty));
    assert_eq!(
        last_image_url(vec!["not a url".to_string(), "https://cdn2.thecatapi.com/images/abc.jpg".to_string()]),
        Ok("https://cdn2.thecatapi.com/images/abc.jpg".to_string())
    );
    assert_eq!(
        last_image_url(vec!["https://cdn2.thecatapi.com/images/abc.jpg".to_string(), "::".to_string()]),
        Err(ImageUrlError::Malformed)
    );
}

#[test]
fn image_errors_have_their_messages() {
    assert_eq!(
        ImageUrlError::Empty.message(Animal::Cat),
        "Il gatto ricevuto in risposta dall'API non esiste, quindi non è stato possibile riceverlo."
    );
    assert_eq!(
        ImageUrlError::Malformed.message(Animal::Cat),
        "L'URL del gatto ricevuto in risposta dall'API è malformato, quindi non è stato possibile riceverlo."
    );
    assert_eq!(
        ImageUrlError::Malformed.message(Animal::Dog),
        "L'URL del cane ricevuto in risposta dall'API è malformato, quindi non è stato possibile riceverlo."
    );
}

//! The rules of image uploads and image metadata. Only the uploader may
//! change or delete an image; listings are not gated by project membership.
use vstd::prelude::*;

use crate::errors::{fails_with, AppError, ErrorKind};
use crate::ids::{is_oid_hex, names_oid, oid_hex, Oid};
use crate::image_model::{Image, ImageResponse, ImageUploadQuery, UpdateImageSchema};
use crate::lemmas::lemma_filter_prefix_step;
use crate::permission_service::is_uploader;

verus! {

/// The largest accepted upload, in bytes: 10 MiB.
pub const MAX_IMAGE_SIZE: usize = 10485760;

/// The MIME type that the extension of `path` suggests.
pub uninterp spec fn mime_of_path(path: Seq<char>) -> Seq<char>;

/// Relies on mime_guess's `from_path(..).first_or_octet_stream()`: the first
/// MIME type known for the extension of `path`, as text.
#[verifier::external_body]
fn guess_mime(path: &str) -> (r: String)
    ensures
        r@ == mime_of_path(path@),
{
    mime_guess::from_path(path).first_or_octet_stream().to_string()
}

/// Relies on uuid's `Uuid::new_v4` and its `Display`: a random identifier
/// written as 36 characters, hex digits and hyphens.
#[verifier::external_body]
fn random_name() -> (r: String)
    ensures
        r@.len() == 36,
{
    uuid::Uuid::new_v4().to_string()
}

/// `s` begins with `p`.
pub open spec fn has_prefix(s: Seq<char>, p: Seq<char>) -> bool {
    p.len() <= s.len() && s.subrange(0, p.len() as int) == p
}

/// `ext` is the extension of `name`: what follows its last dot, or all of
/// `name` when it has none.
pub open spec fn is_extension_of(name: Seq<char>, ext: Seq<char>) -> bool {
    &&& ext.len() <= name.len()
    &&& ext == name.subrange(name.len() - ext.len(), name.len() as int)
    &&& !ext.contains('.')
    &&& ext.len() < name.len() ==> name[name.len() - ext.len() - 1] == '.'
}

/// Whether `s` begins with `p`.
pub fn starts_with(s: &str, p: &str) -> (r: bool)
    ensures
        r == has_prefix(s@, p@),
{
    let n = p.unicode_len();
    if n > s.unicode_len() {
        return false;
    }
    let mut i: usize = 0;
    while i < n
        invariant
            n == p@.len(),
            n <= s@.len(),
            0 <= i <= n,
            forall|j: int| 0 <= j < i ==> s@[j] == p@[j],
        decreases n - i,
    {
        if s.get_char(i) != p.get_char(i) {
            return false;
        }
        i = i + 1;
    }
    assert(s@.subrange(0, n as int) =~= p@);
    true
}

/// The extension of a file name: what follows its last dot, or the whole
/// name when it has none.
pub fn file_extension(name: &str) -> (r: String)
    ensures
        is_extension_of(name@, r@),
{
    let len = name.unicode_len();
    let mut start: usize = len;
    while start > 0 && name.get_char(start - 1) != '.'
        invariant
            len == name@.len(),
            0 <= start <= len,
            forall|j: int| start <= j < len ==> name@[j] != '.',
        decreases start,
    {
        start = start - 1;
    }
    let ext = name.substring_char(start, len);
    let r = String::from_str(ext);
    assert(r@ == name@.subrange(start as int, len as int));
    assert forall|j: int| 0 <= j < r@.len() implies r@[j] != '.' by {
        assert(r@[j] == name@[start + j]);
    }
    r
}

/// Checks an upload: at most 10 MiB, and a content type of an image.
pub fn validate_upload(size: usize, content_type: &str) -> (r: Result<(), AppError>)
    ensures
        r.is_ok() == (size <= MAX_IMAGE_SIZE && has_prefix(content_type@, "image/"@)),
        r.is_err() ==> fails_with(r, ErrorKind::Validation),
{
    if size > MAX_IMAGE_SIZE {
        return Err(
            AppError::ValidationError(
                String::from_str("El archivo es demasiado grande (máximo 10MB)"),
            ),
        );
    }
    if !starts_with(content_type, "image/") {
        return Err(
            AppError::ValidationError(String::from_str("Solo se permiten archivos de imagen")),
        );
    }
    Ok(())
}

/// What an optional identifier text of a request resolves to.
pub open spec fn optional_id_resolves(text: Option<String>, r: Option<Oid>) -> bool {
    match text {
        None => r.is_none(),
        Some(s) => r.is_some() && names_oid(s@, r.unwrap()),
    }
}

/// An optional identifier text that is absent or names an identifier.
pub open spec fn optional_id_ok(text: Option<String>) -> bool {
    match text {
        None => true,
        Some(s) => is_oid_hex(s@),
    }
}

fn parse_optional_id(text: Option<String>, message: &str) -> (r: Result<Option<Oid>, AppError>)
    ensures
        optional_id_ok(text) ==> (r matches Ok(o) && optional_id_resolves(text, o)),
        !optional_id_ok(text) ==> fails_with(r, ErrorKind::Validation),
{
    match text {
        None => Ok(None),
        Some(s) => match Oid::parse_str(s.as_str()) {
            Some(o) => Ok(Some(o)),
            None => Err(AppError::ValidationError(String::from_str(message))),
        },
    }
}

/// A change of an attachment: an empty text detaches, other text must name an
/// identifier.
pub open spec fn attachment_ok(text: Option<String>) -> bool {
    match text {
        Some(s) => s@.len() == 0 || is_oid_hex(s@),
        None => true,
    }
}

/// `r` is the attachment of an image after the change `text` of `current`.
pub open spec fn attachment_after(text: Option<String>, current: Option<Oid>, r: Option<Oid>) -> bool {
    match text {
        None => r == current,
        Some(s) => if s@.len() == 0 {
            r.is_none()
        } else {
            r.is_some() && names_oid(s@, r.unwrap())
        },
    }
}

fn resolve_attachment(text: Option<String>, current: Option<Oid>, message: &str) -> (r: Result<
    Option<Oid>,
    AppError,
>)
    ensures
        attachment_ok(text) ==> (r matches Ok(o) && attachment_after(text, current, o)),
        !attachment_ok(text) ==> fails_with(r, ErrorKind::Validation),
{
    match text {
        None => Ok(current),
        Some(s) => {
            if char_len_is_zero(&s) {
                Ok(None)
            } else {
                match Oid::parse_str(s.as_str()) {
                    Some(o) => Ok(Some(o)),
                    None => Err(AppError::ValidationError(String::from_str(message))),
                }
            }
        },
    }
}

fn char_len_is_zero(s: &String) -> (r: bool)
    ensures
        r == (s@.len() == 0),
{
    s.as_str().unicode_len() == 0
}

/// `d` is how `img` is shown to clients.
pub open spec fn is_response(img: Image, d: ImageResponse) -> bool {
    &&& img.id.is_some()
    &&& d.id@ == oid_hex(img.id.unwrap().bytes@)
    &&& d.filename == img.filename
    &&& d.original_filename == img.original_filename
    &&& d.content_type == img.content_type
    &&& d.size == img.size
    &&& d.url == img.gcs_url
    &&& d.created_at == img.created_at
    &&& d.updated_at == img.updated_at
}

impl ImageResponse {
    /// How a stored image is shown to clients.
    pub fn from_image(image: Image) -> (r: ImageResponse)
        requires
            image.id.is_some(),
        ensures
            is_response(image, r),
    {
        let id = match image.id {
            Some(o) => o.to_hex(),
            None => String::new(),
        };
        ImageResponse {
            id,
            filename: image.filename,
            original_filename: image.original_filename,
            content_type: image.content_type,
            size: image.size,
            url: image.gcs_url,
            created_at: image.created_at,
            updated_at: image.updated_at,
        }
    }
}

/// Which images a listing asks for.
pub enum ImageFilter {
    Project(Oid),
    Task(Oid),
    Uploader(Oid),
}

/// The images that `f` selects.
pub open spec fn selected_by(f: ImageFilter) -> spec_fn(Image) -> bool {
    |img: Image|
        match f {
            ImageFilter::Project(p) => img.project_id == Some(p),
            ImageFilter::Task(t) => img.task_id == Some(t),
            ImageFilter::Uploader(u) => img.uploaded_by == u,
        }
}

/// `r` shows exactly the images of `all` that `f` selects, in order.
pub open spec fn lists(all: Seq<Image>, f: ImageFilter, r: Seq<ImageResponse>) -> bool {
    let chosen = all.filter(selected_by(f));
    r.len() == chosen.len() && forall|i: int| 0 <= i < r.len() ==> is_response(chosen[i], #[trigger] r[i])
}

fn image_selected(img: &Image, f: &ImageFilter) -> (r: bool)
    ensures
        r == selected_by(*f)(*img),
{
    match f {
        ImageFilter::Project(p) => match img.project_id {
            Some(q) => q == *p,
            None => false,
        },
        ImageFilter::Task(t) => match img.task_id {
            Some(q) => q == *t,
            None => false,
        },
        ImageFilter::Uploader(u) => img.uploaded_by == *u,
    }
}

fn list_images(images: Vec<Image>, f: ImageFilter) -> (r: Vec<ImageResponse>)
    requires
        forall|i: int| 0 <= i < images@.len() ==> (#[trigger] images@[i]).id.is_some(),
    ensures
        lists(images@, f, r@),
{
    let ghost all = images@;
    let ghost pred = selected_by(f);
    let n = images.len();
    let mut rest = images;
    let mut out: Vec<ImageResponse> = Vec::new();
    let mut i: usize = 0;
    while rest.len() > 0
        invariant
            pred == selected_by(f),
            all.len() == n,
            0 <= i <= n,
            i + rest@.len() == n,
            rest@ == all.subrange(i as int, n as int),
            forall|k: int| 0 <= k < all.len() ==> (#[trigger] all[k]).id.is_some(),
            lists(all.subrange(0, i as int), f, out@),
        decreases rest.len(),
    {
        proof {
            lemma_filter_prefix_step(all, i as int, pred);
        }
        let img = rest.remove(0);
        assert(img == all[i as int]);
        if image_selected(&img, &f) {
            out.push(ImageResponse::from_image(img));
        }
        i = i + 1;
        assert(rest@ =~= all.subrange(i as int, n as int));
    }
    assert(all.subrange(0, n as int) =~= all);
    out
}

/// The image service, with the storage bucket that holds the bytes.
pub struct ImageService {
    pub bucket: String,
}

impl ImageService {
    pub fn new(bucket: String) -> (r: ImageService)
        ensures
            r.bucket == bucket,
    {
        ImageService { bucket }
    }

    /// Resolves the attachments named in an upload request.
    pub fn parse_upload_query(query: ImageUploadQuery) -> (r: Result<
        (Option<Oid>, Option<Oid>),
        AppError,
    >)
        ensures
            optional_id_ok(query.project_id) && optional_id_ok(query.task_id) ==> (r matches Ok(
                ids,
            ) && optional_id_resolves(query.project_id, ids.0) && optional_id_resolves(
                query.task_id,
                ids.1,
            )),
            !(optional_id_ok(query.project_id) && optional_id_ok(query.task_id)) ==> fails_with(
                r,
                ErrorKind::Validation,
            ),
    {
        let p = match parse_optional_id(query.project_id, "ID de proyecto inválido") {
            Ok(p) => p,
            Err(e) => {
                return Err(e);
            },
        };
        let t = match parse_optional_id(query.task_id, "ID de tarea inválido") {
            Ok(t) => t,
            Err(e) => {
                return Err(e);
            },
        };
        Ok((p, t))
    }

    /// Decides the record of an upload of `file_size` bytes by `user_id`. The
    /// file is stored as `<custom name or a random name>.<extension>` in
    /// `folder` (by default `avatar`); without a content type, the one that
    /// the file name suggests is used. The bytes go to storage under
    /// `gcs_object_name`.
    pub fn upload_image(
        &self,
        file_size: usize,
        filename: Option<String>,
        content_type: Option<String>,
        user_id: Oid,
        project_id: Option<Oid>,
        task_id: Option<Oid>,
        custom_name: Option<String>,
        folder: Option<String>,
        now: i64,
    ) -> (r: Result<Image, AppError>)
        ensures
            filename.is_none() ==> fails_with(r, ErrorKind::Validation),
            filename matches Some(name) ==> {
                let ct = match content_type {
                    Some(c) => c@,
                    None => mime_of_path(name@),
                };
                if !(file_size <= MAX_IMAGE_SIZE && has_prefix(ct, "image/"@)) {
                    fails_with(r, ErrorKind::Validation)
                } else {
                    r matches Ok(img) && {
                        let dir = match folder {
                            Some(f) => f@,
                            None => "avatar"@,
                        };
                        &&& custom_name matches Some(c) ==> img.filename@.subrange(
                            0,
                            c@.len() as int,
                        ) == c@
                        &&& exists|base: Seq<char>, ext: Seq<char>|
                            {
                                &&& is_extension_of(name@, ext)
                                &&& (match custom_name {
                                    Some(c) => base == c@,
                                    None => base.len() == 36,
                                })
                                &&& img.filename@ == base + "."@ + ext
                            }
                        &&& img.gcs_object_name@ == dir + "/"@ + img.filename@
                        &&& img.gcs_url@ == "https://storage.googleapis.com/"@ + self.bucket@ + "/"@
                            + img.gcs_object_name@
                        &&& img.id.is_none()
                        &&& img.original_filename == name
                        &&& img.content_type@ == ct
                        &&& img.size == file_size as u64
                        &&& img.gcs_bucket == self.bucket
                        &&& img.uploaded_by == user_id
                        &&& img.project_id == project_id
                        &&& img.task_id == task_id
                        &&& img.created_at == now
                        &&& img.updated_at == now
                    }
                }
            },
    {
        let name = match filename {
            Some(n) => n,
            None => {
                return Err(AppError::ValidationError(String::from_str("Nombre de archivo requerido")));
            },
        };
        let ct = match content_type {
            Some(c) => c,
            None => guess_mime(name.as_str()),
        };
        match validate_upload(file_size, ct.as_str()) {
            Ok(()) => {},
            Err(e) => {
                return Err(e);
            },
        }
        let ext = file_extension(name.as_str());
        let base = match custom_name {
            Some(c) => c,
            None => random_name(),
        };
        let ghost base_v = base@;
        let unique = base.concat(".").concat(ext.as_str());
        let dir = match folder {
            Some(f) => f,
            None => String::from_str("avatar"),
        };
        let object_name = dir.concat("/").concat(unique.as_str());
        let url = String::from_str("https://storage.googleapis.com/").concat(self.bucket.as_str()).concat(
            "/",
        ).concat(object_name.as_str());
        assert(unique@.subrange(0, base_v.len() as int) =~= base_v);
        Ok(
            Image {
                id: None,
                filename: unique,
                original_filename: name,
                content_type: ct,
                size: file_size as u64,
                gcs_url: url,
                gcs_bucket: self.bucket.clone(),
                gcs_object_name: object_name,
                uploaded_by: user_id,
                project_id,
                task_id,
                created_at: now,
                updated_at: now,
            },
        )
    }

    /// An image as shown to clients.
    pub fn get_image(&self, image: Option<Image>) -> (r: Result<ImageResponse, AppError>)
        ensures
            image.is_none() ==> fails_with(r, ErrorKind::NotFound),
            image matches Some(img) ==> if img.id.is_some() {
                r matches Ok(d) && is_response(img, d)
            } else {
                fails_with(r, ErrorKind::Internal)
            },
    {
        match image {
            None => Err(AppError::NotFound(String::from_str("Imagen no encontrada"))),
            Some(img) => {
                if img.id.is_none() {
                    return Err(AppError::InternalServerError);
                }
                Ok(ImageResponse::from_image(img))
            },
        }
    }

    /// Decides a change of `image`'s metadata by `user_id`: the uploader alone
    /// may change it. The change is stamped with `now`.
    pub fn update_image(
        &self,
        user_id: Oid,
        update_data: UpdateImageSchema,
        image: Option<Image>,
        now: i64,
    ) -> (r: Result<Image, AppError>)
        ensures
            image.is_none() ==> fails_with(r, ErrorKind::NotFound),
            image matches Some(img) ==> if !is_uploader(img, user_id) {
                fails_with(r, ErrorKind::Denied)
            } else if !attachment_ok(update_data.project_id) || !attachment_ok(update_data.task_id) {
                fails_with(r, ErrorKind::Validation)
            } else {
                r matches Ok(q) && {
                    &&& q.id == img.id
                    &&& q.filename == (match update_data.filename {
                        Some(f) => f,
                        None => img.filename,
                    })
                    &&& attachment_after(update_data.project_id, img.project_id, q.project_id)
                    &&& attachment_after(update_data.task_id, img.task_id, q.task_id)
                    &&& q.original_filename == img.original_filename
                    &&& q.content_type == img.content_type
                    &&& q.size == img.size
                    &&& q.gcs_url == img.gcs_url
                    &&& q.gcs_bucket == img.gcs_bucket
                    &&& q.gcs_object_name == img.gcs_object_name
                    &&& q.uploaded_by == img.uploaded_by
                    &&& q.created_at == img.created_at
                    &&& q.updated_at == now
                }
            },
    {
        let img = match image {
            Some(i) => i,
            None => {
                return Err(AppError::NotFound(String::from_str("Imagen no encontrada")));
            },
        };
        if img.uploaded_by != user_id {
            return Err(
                AppError::Unauthorized(
                    String::from_str("No tienes permisos para modificar esta imagen"),
                ),
            );
        }
        let project_id = match resolve_attachment(
            update_data.project_id,
            img.project_id,
            "ID de proyecto inválido",
        ) {
            Ok(p) => p,
            Err(e) => {
                return Err(e);
            },
        };
        let task_id = match resolve_attachment(
            update_data.task_id,
            img.task_id,
            "ID de tarea inválido",
        ) {
            Ok(t) => t,
            Err(e) => {
                return Err(e);
            },
        };
        let mut q = img;
        if let Some(f) = update_data.filename {
            q.filename = f;
        }
        q.project_id = project_id;
        q.task_id = task_id;
        q.updated_at = now;
        Ok(q)
    }

    /// Decides the deletion of `image` by `user_id`: the uploader alone may
    /// delete it. Storage then removes its bytes and its record.
    pub fn delete_image(&self, user_id: Oid, image: Option<Image>) -> (r: Result<Image, AppError>)
        ensures
            image.is_none() ==> fails_with(r, ErrorKind::NotFound),
            image matches Some(img) ==> if is_uploader(img, user_id) {
                r == Ok::<Image, AppError>(img)
            } else {
                fails_with(r, ErrorKind::Denied)
            },
    {
        let img = match image {
            Some(i) => i,
            None => {
                return Err(AppError::NotFound(String::from_str("Imagen no encontrada")));
            },
        };
        if img.uploaded_by != user_id {
            return Err(
                AppError::Unauthorized(
                    String::from_str("No tienes permisos para eliminar esta imagen"),
                ),
            );
        }
        Ok(img)
    }

    /// The images of `images` attached to `project_id`, in order.
    pub fn list_images_by_project(&self, project_id: Oid, images: Vec<Image>) -> (r: Vec<
        ImageResponse,
    >)
        requires
            forall|i: int| 0 <= i < images@.len() ==> (#[trigger] images@[i]).id.is_some(),
        ensures
            lists(images@, ImageFilter::Project(project_id), r@),
    {
        list_images(images, ImageFilter::Project(project_id))
    }

    /// The images of `images` attached to `task_id`, in order.
    pub fn list_images_by_task(&self, task_id: Oid, images: Vec<Image>) -> (r: Vec<ImageResponse>)
        requires
            forall|i: int| 0 <= i < images@.len() ==> (#[trigger] images@[i]).id.is_some(),
        ensures
            lists(images@, ImageFilter::Task(task_id), r@),
    {
        list_images(images, ImageFilter::Task(task_id))
    }

    /// The images of `images` uploaded by `user_id`, in order.
    pub fn list_user_images(&self, user_id: Oid, images: Vec<Image>) -> (r: Vec<ImageResponse>)
        requires
            forall|i: int| 0 <= i < images@.len() ==> (#[trigger] images@[i]).id.is_some(),
        ensures
            lists(images@, ImageFilter::Uploader(user_id), r@),
    {
        list_images(images, ImageFilter::Uploader(user_id))
    }
}

} // verus!

//! Releases, and the tags that they are made from.

use vstd::prelude::*;

use crate::error::{outcome, ForgeError, ForgeErrorView};
use crate::gitea::{Gitea, GiteaView};
use crate::http::{
    accepted, done, error_for_status, make_request, request_to, send, sending, Body, BodyView,
    Expect, Flow, Method, Progress, Reply, ReplyView, Request, RequestView, CONFLICT, NOT_FOUND,
};
use crate::text::{concat, same_text};
use crate::types::{ReleaseByTagResponse, ReleaseByTagResponseView};
use crate::wire::{
    CreateRelease, CreateReleaseView, CreateTag, CreateTagView, GiteaTag, GiteaTagView,
};

verus! {

impl GiteaView {
    /// The request for a tag.
    #[verifier::opaque]
    pub open spec fn get_tag(self, name: Seq<char>) -> Result<RequestView, ForgeErrorView> {
        request_to(Method::Get, self.endpoint("tags/"@ + name), BodyView::Empty, Expect::Tag)
    }

    /// The request for the release of a tag.
    #[verifier::opaque]
    pub open spec fn get_release(self, tag: Seq<char>) -> Result<RequestView, ForgeErrorView> {
        request_to(
            Method::Get,
            self.endpoint("releases/tags/"@ + tag),
            BodyView::Empty,
            Expect::Release,
        )
    }

    /// The request for a new tag.
    #[verifier::opaque]
    pub open spec fn create_tag(self, tag_name: Seq<char>, sha: Seq<char>) -> Result<
        RequestView,
        ForgeErrorView,
    > {
        request_to(
            Method::Post,
            self.endpoint("tags"@),
            BodyView::CreateTag(CreateTagView { tag_name, target: sha }),
            Expect::Nothing,
        )
    }

    /// The request for a new release.
    pub open spec fn create_release(
        self,
        tag: Seq<char>,
        sha: Seq<char>,
        notes: Seq<char>,
    ) -> Result<RequestView, ForgeErrorView> {
        request_to(
            Method::Post,
            self.endpoint("releases"@),
            BodyView::CreateRelease(
                CreateReleaseView {
                    tag_name: tag,
                    target_commitish: sha,
                    name: tag,
                    body: notes,
                    draft: false,
                    prerelease: false,
                },
            ),
            Expect::Nothing,
        )
    }
}

impl Gitea {
    fn get_tag(&self, name: &str) -> (res: Result<Request, ForgeError>)
        ensures
            outcome(res) == self@.get_tag(name@),
    {
        proof {
            reveal(GiteaView::get_tag);
        }
        let url = self.endpoint(concat("tags/", name).as_str());
        make_request(Method::Get, url, Body::Empty, Expect::Tag)
    }

    fn get_release(&self, tag: &str) -> (res: Result<Request, ForgeError>)
        ensures
            outcome(res) == self@.get_release(tag@),
    {
        proof {
            reveal(GiteaView::get_release);
        }
        let url = self.endpoint(concat("releases/tags/", tag).as_str());
        make_request(Method::Get, url, Body::Empty, Expect::Release)
    }

    fn create_tag(&self, tag_name: &str, sha: &str) -> (res: Result<Request, ForgeError>)
        ensures
            outcome(res) == self@.create_tag(tag_name@, sha@),
    {
        proof {
            reveal(GiteaView::create_tag);
        }
        let body = CreateTag { tag_name: tag_name.to_owned(), target: sha.to_owned() };
        make_request(
            Method::Post,
            self.endpoint("tags"),
            Body::CreateTag(body),
            Expect::Nothing,
        )
    }

    /// Asks for a new release of a tag.
    pub fn create_release(&self, tag: &str, sha: &str, notes: &str) -> (res: Result<
        Request,
        ForgeError,
    >)
        ensures
            outcome(res) == self@.create_release(tag@, sha@, notes@),
    {
        let body = CreateRelease {
            tag_name: tag.to_owned(),
            target_commitish: sha.to_owned(),
            name: tag.to_owned(),
            body: notes.to_owned(),
            draft: false,
            prerelease: false,
        };
        make_request(
            Method::Post,
            self.endpoint("releases"),
            Body::CreateRelease(body),
            Expect::Nothing,
        )
    }
}

/// A look-up of the release of a tag.
#[derive(Debug)]
pub enum ReleaseLookup {
    /// The tag of that name is waited for.
    Tag(String),
    /// The release of that tag is waited for.
    Release(GiteaTag),
}

/// The value of a [`ReleaseLookup`].
#[verifier::ext_equal]
pub enum ReleaseLookupView {
    Tag(Seq<char>),
    Release(GiteaTagView),
}

impl DeepView for ReleaseLookup {
    type V = ReleaseLookupView;

    open spec fn deep_view(&self) -> ReleaseLookupView {
        match self {
            ReleaseLookup::Tag(name) => ReleaseLookupView::Tag(name@),
            ReleaseLookup::Release(tag) => ReleaseLookupView::Release(tag.deep_view()),
        }
    }
}

impl ReleaseLookupView {
    /// Asks for the tag.
    pub open spec fn start(g: GiteaView, tag: Seq<char>) -> Progress<
        ReleaseLookupView,
        ReleaseByTagResponseView,
    > {
        sending(g.get_tag(tag), ReleaseLookupView::Tag(tag))
    }

    /// Reads the tag, and asks for its release; or reads the release.
    pub open spec fn step(self, g: GiteaView, reply: ReplyView) -> Progress<
        ReleaseLookupView,
        ReleaseByTagResponseView,
    > {
        match self {
            ReleaseLookupView::Tag(name) => if reply.status == NOT_FOUND {
                Err(ForgeErrorView::Forge("tag not found: "@ + name))
            } else {
                match reply.tag() {
                    Err(error) => Err(error),
                    Ok(tag) => sending(g.get_release(tag.name), ReleaseLookupView::Release(tag)),
                }
            },
            ReleaseLookupView::Release(tag) => if reply.status == NOT_FOUND {
                Err(ForgeErrorView::Forge("no release found for tag: "@ + tag.name))
            } else {
                match reply.release() {
                    Err(error) => Err(error),
                    Ok(release) => done(
                        ReleaseByTagResponseView {
                            tag: tag.name,
                            sha: tag.commit.sha,
                            notes: release.body,
                        },
                    ),
                }
            },
        }
    }
}

impl ReleaseLookup {
    /// Reads a reply.
    pub fn on_reply(self, gitea: &Gitea, reply: Reply) -> (res: Result<
        Flow<ReleaseLookup, ReleaseByTagResponse>,
        ForgeError,
    >)
        ensures
            outcome(res) == self.deep_view().step(gitea@, reply.deep_view()),
    {
        match self {
            ReleaseLookup::Tag(name) => {
                if reply.status == NOT_FOUND {
                    return Err(ForgeError::Forge(concat("tag not found: ", name.as_str())));
                }
                match reply.tag() {
                    Err(error) => Err(error),
                    Ok(tag) => {
                        let request = gitea.get_release(tag.name.as_str());
                        send(request, ReleaseLookup::Release(tag))
                    },
                }
            },
            ReleaseLookup::Release(tag) => {
                if reply.status == NOT_FOUND {
                    return Err(
                        ForgeError::Forge(
                            concat("no release found for tag: ", tag.name.as_str()),
                        ),
                    );
                }
                match reply.release() {
                    Err(error) => Err(error),
                    Ok(release) => Ok(
                        Flow::Done(
                            ReleaseByTagResponse {
                                tag: tag.name,
                                sha: tag.commit.sha,
                                notes: release.body,
                            },
                        ),
                    ),
                }
            },
        }
    }
}

/// A tag that is being put on a commit.
#[derive(Debug)]
pub struct Tagging {
    tag_name: String,
    sha: String,
    /// Whether there is such a tag already, which is looked at then.
    exists: bool,
}

/// The value of a [`Tagging`].
#[verifier::ext_equal]
pub struct TaggingView {
    pub tag_name: Seq<char>,
    pub sha: Seq<char>,
    pub exists: bool,
}

impl View for Tagging {
    type V = TaggingView;

    closed spec fn view(&self) -> TaggingView {
        TaggingView { tag_name: self.tag_name@, sha: self.sha@, exists: self.exists }
    }
}

impl DeepView for Tagging {
    type V = TaggingView;

    open spec fn deep_view(&self) -> TaggingView {
        self@
    }
}

impl TaggingView {
    /// Asks for the new tag.
    pub open spec fn start(g: GiteaView, tag_name: Seq<char>, sha: Seq<char>) -> Progress<
        TaggingView,
        (),
    > {
        sending(g.create_tag(tag_name, sha), TaggingView { tag_name, sha, exists: false })
    }

    /// The error that the tag is on another commit.
    pub open spec fn elsewhere(self, sha: Seq<char>) -> Seq<char> {
        "tag "@ + self.tag_name + " already exists pointing at "@ + sha + " but expected "@
            + self.sha
    }

    /// Reads the answer to the question for the new tag; where there is one
    /// already, reads whether that is on the commit.
    pub open spec fn step(self, g: GiteaView, reply: ReplyView) -> Progress<TaggingView, ()> {
        if self.exists {
            match reply.tag() {
                Err(error) => Err(error),
                Ok(tag) => if tag.commit.sha == self.sha {
                    done(())
                } else {
                    Err(ForgeErrorView::Forge(self.elsewhere(tag.commit.sha)))
                },
            }
        } else if reply.status == CONFLICT {
            sending(g.get_tag(self.tag_name), TaggingView { exists: true, ..self })
        } else {
            match accepted(reply.status) {
                Err(error) => Err(error),
                Ok(_) => done(()),
            }
        }
    }
}

impl Tagging {
    /// Words the error that the tag is on another commit.
    fn elsewhere(&self, sha: &str) -> (res: String)
        ensures
            res@ == self@.elsewhere(sha@),
    {
        let mut text = concat("tag ", self.tag_name.as_str());
        text.append(" already exists pointing at ");
        text.append(sha);
        text.append(" but expected ");
        text.append(self.sha.as_str());
        text
    }

    /// Reads a reply.
    pub fn on_reply(self, gitea: &Gitea, reply: Reply) -> (res: Result<
        Flow<Tagging, ()>,
        ForgeError,
    >)
        ensures
            outcome(res) == self@.step(gitea@, reply.deep_view()),
    {
        if self.exists {
            return match reply.tag() {
                Err(error) => Err(error),
                Ok(tag) => if same_text(tag.commit.sha.as_str(), self.sha.as_str()) {
                    Ok(Flow::Done(()))
                } else {
                    Err(ForgeError::Forge(self.elsewhere(tag.commit.sha.as_str())))
                },
            };
        }
        if reply.status == CONFLICT {
            let request = gitea.get_tag(self.tag_name.as_str());
            return send(request, Tagging { exists: true, ..self });
        }
        match error_for_status(reply.status) {
            Err(error) => Err(error),
            Ok(_) => Ok(Flow::Done(())),
        }
    }
}

impl Gitea {
    /// Starts a look-up of the release of a tag.
    pub fn get_release_by_tag(&self, tag: &str) -> (res: Result<
        Flow<ReleaseLookup, ReleaseByTagResponse>,
        ForgeError,
    >)
        ensures
            outcome(res) == ReleaseLookupView::start(self@, tag@),
    {
        send(self.get_tag(tag), ReleaseLookup::Tag(tag.to_owned()))
    }

    /// Starts to put a tag on a commit. A tag that is on it already is fine.
    pub fn tag_commit(&self, tag_name: &str, sha: &str) -> (res: Result<
        Flow<Tagging, ()>,
        ForgeError,
    >)
        ensures
            outcome(res) == TaggingView::start(self@, tag_name@, sha@),
    {
        send(
            self.create_tag(tag_name, sha),
            Tagging { tag_name: tag_name.to_owned(), sha: sha.to_owned(), exists: false },
        )
    }
}

} // verus!

//! The controller facade: composes the scheduler, the torrc renderer and the
//! hidden-service directory under one working directory.
//!
//! `update` is the one operation that touches both the on-disk configuration
//! and the scheduler: it renders the torrc first and signals the reload
//! second, so the file reflects the new configuration before the event loop
//! can observe the flag. The signal is fire-and-forget; nothing waits for
//! the child to reread.

use crate::command::Command;
use crate::command::CommandModel;
use crate::configuration::Configuration;
use crate::configuration::HiddenService;
use crate::configuration::HiddenServiceModel;
use crate::error::SupervisorError;
use crate::hidden_service_directory::DirectoryEntry;
use crate::hidden_service_directory::FsAction;
use crate::hidden_service_directory::HiddenServiceDirectory;
use crate::hidden_service_directory::collect_secret_files;
use crate::hidden_service_directory::save_plan;
use crate::scheduler::Scheduler;
use crate::scheduler::SchedulerModel;
use crate::secret_file::SecretFile;
use crate::secret_file::is_valid_relative_path;
use crate::text::join_path;
use crate::text::join_path_spec;
use crate::tor_rc::TorRc;
use crate::tor_rc::TorRcConfiguration;
use crate::tor_rc::TorRcHiddenServiceConfiguration;
use crate::tor_rc::TorRcModel;
use crate::tor_rc::TorRcServiceModel;
use crate::tor_rc::render_configuration;
use vstd::prelude::*;

verus! {

/// Each hidden service resolved for rendering: its directory is the service
/// name under the working directory.
pub open spec fn resolve_hidden_services(
    working_directory: Seq<char>,
    services: Seq<HiddenServiceModel>,
) -> Seq<TorRcServiceModel> {
    services.map_values(
        |hs: HiddenServiceModel| TorRcServiceModel {
            service_directory: join_path_spec(working_directory, hs.service_name),
            service_port: hs.service_port,
            host_address: hs.host_address,
            host_port: hs.host_port,
        },
    )
}

pub struct Controller {
    scheduler: Scheduler,
    tor_rc: TorRc,
    hidden_service_directory: HiddenServiceDirectory,
    working_directory: String,
}

impl Controller {
    pub closed spec fn working_directory_spec(&self) -> Seq<char> {
        self.working_directory@
    }

    pub closed spec fn scheduler_model(&self) -> SchedulerModel {
        self.scheduler@
    }

    pub closed spec fn command_model(&self) -> CommandModel {
        self.scheduler.command_spec()@
    }

    pub closed spec fn tor_rc_model(&self) -> TorRcModel {
        self.tor_rc@
    }

    pub closed spec fn base_path_spec(&self) -> Seq<char> {
        self.hidden_service_directory.base_path_spec()
    }

    /// Everything but the scheduler flags and the torrc contents is fixed at
    /// construction; operations preserve it.
    pub open spec fn fixed_parts_unchanged(&self, other: &Controller) -> bool {
        &&& self.working_directory_spec() == other.working_directory_spec()
        &&& self.base_path_spec() == other.base_path_spec()
        &&& self.command_model() == other.command_model()
        &&& self.scheduler_model().pid_path == other.scheduler_model().pid_path
        &&& self.tor_rc_model().path == other.tor_rc_model().path
    }

    /// Derives the PID file path, the torrc path and the hidden-service root
    /// from the working directory, and captures the launch recipe.
    pub fn new(program: &str, working_directory: String, no_window_support: bool) -> (r:
        Controller)
        ensures
            r.working_directory_spec() == working_directory@,
            r.base_path_spec() == working_directory@,
            r.command_model().program == program@,
            r.command_model().tor_rc == join_path_spec(working_directory@, "torrc"@),
            r.command_model().no_window_support == no_window_support,
            r.scheduler_model() == (SchedulerModel {
                pid_path: join_path_spec(working_directory@, "tor.pid"@),
                reload: false,
                terminate: false,
                running: false,
            }),
            r.tor_rc_model().path == join_path_spec(working_directory@, "torrc"@),
            r.tor_rc_model().contents is None,
    {
        let pid_path = join_path(working_directory.as_str(), "tor.pid");
        let tor_rc_path = join_path(working_directory.as_str(), "torrc");
        let hidden_service_dir = working_directory.clone();

        let command = Command::new(program, tor_rc_path.as_str(), no_window_support);

        Controller {
            scheduler: Scheduler::new(command, pid_path),
            tor_rc: TorRc::new(tor_rc_path),
            hidden_service_directory: HiddenServiceDirectory::new(hidden_service_dir),
            working_directory,
        }
    }

    /// Starts supervision; `published_pid` is what the PID file read. A
    /// published PID aborts with the zombie diagnostic and changes nothing.
    pub fn start(&mut self, published_pid: Option<u32>) -> (r: Result<(), SupervisorError>)
        requires
            !old(self).scheduler_model().running,
        ensures
            final(self).fixed_parts_unchanged(old(self)),
            final(self).tor_rc_model() == old(self).tor_rc_model(),
            published_pid matches Some(p) ==> r == Err::<(), SupervisorError>(
                SupervisorError::ZombieDetected { pid: p },
            ) && final(self).scheduler_model() == old(self).scheduler_model(),
            published_pid is None ==> r is Ok && final(self).scheduler_model()
                == (SchedulerModel { running: true, ..old(self).scheduler_model() }),
    {
        self.scheduler.start(published_pid)
    }

    /// Asks the event loop to wind down; the caller awaits it.
    pub fn stop(&mut self)
        requires
            old(self).scheduler_model().running,
        ensures
            final(self).fixed_parts_unchanged(old(self)),
            final(self).tor_rc_model() == old(self).tor_rc_model(),
            final(self).scheduler_model() == (SchedulerModel {
                terminate: true,
                running: false,
                ..old(self).scheduler_model()
            }),
    {
        self.scheduler.stop()
    }

    /// Renders the torrc for `configuration` and then signals a reload:
    /// returns the rendered text for the owner of the real file to persist
    /// before the next tick can observe the flag.
    pub fn update(&mut self, configuration: &Configuration) -> (text: String)
        requires
            old(self).scheduler_model().running,
        ensures
            final(self).fixed_parts_unchanged(old(self)),
            text@ == render_configuration(
                resolve_hidden_services(old(self).working_directory_spec(), configuration@),
            ),
            final(self).tor_rc_model().contents == Some(text@),
            final(self).scheduler_model() == (SchedulerModel {
                reload: true,
                ..old(self).scheduler_model()
            }),
    {
        let ghost resolved = resolve_hidden_services(
            self.working_directory_spec(),
            configuration@,
        );
        let mut hidden_services: Vec<TorRcHiddenServiceConfiguration> = Vec::new();
        let n = configuration.hidden_services.len();
        let mut i: usize = 0;
        while i < n
            invariant
                i <= n,
                n == configuration@.len(),
                resolved == resolve_hidden_services(self.working_directory_spec(), configuration@),
                resolved.len() == n,
                hidden_services.deep_view() == resolved.take(i as int),
            decreases n - i,
        {
            let ghost prev = hidden_services.deep_view();
            let hidden_service = &configuration.hidden_services[i];
            proof {
                assert(configuration@[i as int] == hidden_service@);
            }
            let resolved_service = TorRcHiddenServiceConfiguration {
                service_directory: join_path(
                    self.working_directory.as_str(),
                    hidden_service.service_name.as_str(),
                ),
                service_port: hidden_service.service_port,
                host_address: hidden_service.host_address.clone(),
                host_port: hidden_service.host_port,
            };
            hidden_services.push(resolved_service);
            proof {
                assert(hidden_services.deep_view() =~= prev.push(resolved[i as int]));
                assert(hidden_services.deep_view() =~= resolved.take(i as int + 1));
            }
            i = i + 1;
        }
        proof {
            assert(resolved.take(n as int) =~= resolved);
        }
        let tor_rc_configuration = TorRcConfiguration { hidden_services };

        self.tor_rc.save(&tor_rc_configuration);
        self.scheduler.reload();
        let text = match self.tor_rc.contents() {
            Some(text) => text.clone(),
            None => unreached(),
        };
        text
    }

    /// Collects each service's secret files from its directory listing:
    /// `listings[i]` is the listing of `hidden_services[i]`'s directory. The
    /// result pairs each service name with exactly the regular-file entries
    /// of its listing, in order.
    pub fn backup(
        &self,
        hidden_services: &Vec<HiddenService>,
        listings: &Vec<Vec<DirectoryEntry>>,
    ) -> (r: Vec<(String, Vec<SecretFile>)>)
        requires
            listings.len() == hidden_services.len(),
            forall|i: int, j: int|
                0 <= i < listings.deep_view().len() && 0 <= j < listings.deep_view()[i].len()
                    && listings.deep_view()[i][j].is_file ==> is_valid_relative_path(
                    #[trigger] listings.deep_view()[i][j].name,
                ),
        ensures
            r.len() == hidden_services.len(),
            forall|i: int|
                0 <= i < r.len() ==> (#[trigger] r[i].0)@ == hidden_services[i]@.service_name,
            forall|i: int|
                0 <= i < r.len() ==> (#[trigger] r[i].1).deep_view() == collect_secret_files(
                    listings.deep_view()[i],
                ),
    {
        let n = hidden_services.len();
        let mut r: Vec<(String, Vec<SecretFile>)> = Vec::new();
        let mut i: usize = 0;
        while i < n
            invariant
                i <= n,
                n == hidden_services.len(),
                n == listings.len(),
                forall|a: int, b: int|
                    0 <= a < listings.deep_view().len() && 0 <= b < listings.deep_view()[a].len()
                        && listings.deep_view()[a][b].is_file ==> is_valid_relative_path(
                        #[trigger] listings.deep_view()[a][b].name,
                    ),
                r.len() == i,
                forall|j: int|
                    0 <= j < i ==> (#[trigger] r[j].0)@ == hidden_services[j]@.service_name,
                forall|j: int|
                    0 <= j < i ==> (#[trigger] r[j].1).deep_view() == collect_secret_files(
                        listings.deep_view()[j],
                    ),
            decreases n - i,
        {
            let hidden_service = &hidden_services[i];
            let listing = &listings[i];
            proof {
                assert(listing.deep_view() == listings.deep_view()[i as int]);
            }
            let files = self.hidden_service_directory.get_secret_files(listing);
            let service_name = hidden_service.service_name.clone();
            r.push((service_name, files));
            i = i + 1;
        }
        r
    }

    /// Plans the writes that restore `secret_files` into `hidden_service`'s
    /// directory with strict permissions; the caller executes them in order.
    pub fn restore(&self, hidden_service: &HiddenService, secret_files: &Vec<SecretFile>) -> (r:
        Vec<FsAction>)
        ensures
            r.deep_view() == save_plan(
                self.base_path_spec(),
                hidden_service@.service_name,
                secret_files.deep_view(),
            ),
    {
        self.hidden_service_directory.save_secret_files(
            hidden_service.service_name.as_str(),
            secret_files,
        )
    }

    /// A convenience reload trigger for a caller that has already mutated
    /// the on-disk state itself.
    pub fn create_hidden_service(&mut self)
        requires
            old(self).scheduler_model().running,
        ensures
            final(self).fixed_parts_unchanged(old(self)),
            final(self).tor_rc_model() == old(self).tor_rc_model(),
            final(self).scheduler_model() == (SchedulerModel {
                reload: true,
                ..old(self).scheduler_model()
            }),
    {
        self.scheduler.reload();
    }

    /// A convenience reload trigger for a caller that has already mutated
    /// the on-disk state itself.
    pub fn delete_hidden_service(&mut self)
        requires
            old(self).scheduler_model().running,
        ensures
            final(self).fixed_parts_unchanged(old(self)),
            final(self).tor_rc_model() == old(self).tor_rc_model(),
            final(self).scheduler_model() == (SchedulerModel {
                reload: true,
                ..old(self).scheduler_model()
            }),
    {
        self.scheduler.reload();
    }

    /// The scheduler's flags and state, for the owner of the real tasks to
    /// mirror into shared atomics.
    pub fn scheduler_flags(&self) -> (r: (bool, bool, bool))
        ensures
            r.0 == self.scheduler_model().running,
            r.1 == self.scheduler_model().reload,
            r.2 == self.scheduler_model().terminate,
    {
        (self.scheduler.is_supervising(), self.scheduler.reload_flag(), self.scheduler.terminate_flag())
    }

    /// The launch recipe source, for the owner of the real process table.
    pub fn command(&self) -> (r: &Command)
        ensures
            r@ == self.command_model(),
    {
        self.scheduler.command()
    }

    /// The PID file path derived from the working directory.
    pub fn pid_path(&self) -> (r: &String)
        ensures
            r@ == self.scheduler_model().pid_path,
    {
        self.scheduler.pid_path()
    }

    /// The torrc path derived from the working directory.
    pub fn tor_rc_path(&self) -> (r: &String)
        ensures
            r@ == self.tor_rc_model().path,
    {
        self.tor_rc.path()
    }
}

} // verus!
